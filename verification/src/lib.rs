//! Business-contact records, their vCard 3.0 text, and the QR bitmap of that text.

pub mod contact;
pub mod export;
pub mod laws;
pub mod lines;
pub mod raster;
pub mod session;
pub mod vcard;
