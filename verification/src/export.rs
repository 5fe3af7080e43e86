//! What can go wrong when a symbol is exported.

use vstd::prelude::*;
use crate::raster::{GrayImage, luma_of, rasterize, renderable};

verus! {

/// Where the symbol is written when the user names no other place.
pub const DEFAULT_EXPORT_PATH: &'static str = "qrcode.png";

/// Why an export did not happen.
#[derive(Debug, PartialEq, Eq)]
pub enum ExportError {
    /// No text has been generated yet, so there is nothing to export.
    EmptyInput,
    /// The file could not be written; the text says why.
    Io(String),
}

impl ExportError {
    /// The text of `message`.
    pub open spec fn message_text(self) -> Seq<char> {
        match self {
            ExportError::EmptyInput => "No vCard generated yet"@,
            ExportError::Io(detail) => "Failed to save QR code: "@ + detail@,
        }
    }

    /// A sentence for the user.
    pub fn message(&self) -> (message: String)
        ensures
            message@ == self.message_text(),
    {
        match self {
            ExportError::EmptyInput => String::from_str("No vCard generated yet"),
            ExportError::Io(detail) => {
                let mut message = String::from_str("Failed to save QR code: ");
                message.append(detail.as_str());
                message
            },
        }
    }
}

/// The image to write when `text` is exported: the symbol of the text,
/// drawn anew. An empty text is refused before anything is drawn.
///
/// A text that is not empty has to be one that can be drawn.
pub fn export_image(text: &str) -> (image: Result<GrayImage, ExportError>)
    requires
        text@.len() > 0 ==> renderable(text@),
    ensures
        image is Err <==> text@.len() == 0,
        image matches Err(e) ==> e == ExportError::EmptyInput,
        image matches Ok(img) ==> Some(img@) == luma_of(text@) && img@.black_and_white(),
{
    if text.is_empty() {
        return Err(ExportError::EmptyInput);
    }
    match rasterize(text) {
        Some(image) => Ok(image),
        None => unreached(),
    }
}

/// What the caller is told once the file has been written, or could not be.
pub fn export_outcome(written: Result<(), String>) -> (outcome: Result<(), ExportError>)
    ensures
        match written {
            Ok(_) => outcome is Ok,
            Err(detail) => outcome == Err::<(), ExportError>(ExportError::Io(detail)),
        },
{
    match written {
        Ok(_) => Ok(()),
        Err(detail) => Err(ExportError::Io(detail)),
    }
}

} // verus!
