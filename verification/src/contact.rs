//! The contact record and its encoder.

use vstd::prelude::*;
use crate::vcard::{
    ContactView, ENTRY_KINDS, Entry, entries_upto, join_lines, lemma_all_entries,
    lemma_entries_upto_len, vcard_text,
};

verus! {

/// Business contact information. Every field is free text; an empty field
/// means that the information is absent.
#[derive(Debug)]
pub struct BusinessContact {
    pub first_name: String,
    pub last_name: String,
    pub organization: String,
    pub title: String,
    pub email: String,
    pub phone: String,
    pub mobile: String,
    pub website: String,
    pub address: String,
    pub note: String,
}

impl View for BusinessContact {
    type V = ContactView;

    open spec fn view(&self) -> ContactView {
        ContactView {
            first_name: self.first_name@,
            last_name: self.last_name@,
            organization: self.organization@,
            title: self.title@,
            email: self.email@,
            phone: self.phone@,
            mobile: self.mobile@,
            website: self.website@,
            address: self.address@,
            note: self.note@,
        }
    }
}

/// The contact whose fields are all empty.
pub open spec fn empty_contact() -> ContactView {
    ContactView {
        first_name: Seq::empty(),
        last_name: Seq::empty(),
        organization: Seq::empty(),
        title: Seq::empty(),
        email: Seq::empty(),
        phone: Seq::empty(),
        mobile: Seq::empty(),
        website: Seq::empty(),
        address: Seq::empty(),
        note: Seq::empty(),
    }
}

impl Default for BusinessContact {
    fn default() -> (contact: BusinessContact)
        ensures
            contact@ == empty_contact(),
    {
        BusinessContact {
            first_name: String::new(),
            last_name: String::new(),
            organization: String::new(),
            title: String::new(),
            email: String::new(),
            phone: String::new(),
            mobile: String::new(),
            website: String::new(),
            address: String::new(),
            note: String::new(),
        }
    }
}

impl Clone for BusinessContact {
    fn clone(&self) -> (copy: BusinessContact)
        ensures
            copy@ == self@,
    {
        BusinessContact {
            first_name: self.first_name.clone(),
            last_name: self.last_name.clone(),
            organization: self.organization.clone(),
            title: self.title.clone(),
            email: self.email.clone(),
            phone: self.phone.clone(),
            mobile: self.mobile.clone(),
            website: self.website.clone(),
            address: self.address.clone(),
            note: self.note.clone(),
        }
    }
}

impl BusinessContact {
    /// Whether an entry of this kind is written for this contact.
    fn writes(&self, kind: Entry) -> (yes: bool)
        ensures
            yes == kind.written(self@),
    {
        match kind {
            Entry::Organization => !self.organization.as_str().is_empty(),
            Entry::Title => !self.title.as_str().is_empty(),
            Entry::Email => !self.email.as_str().is_empty(),
            Entry::Phone => !self.phone.as_str().is_empty(),
            Entry::Mobile => !self.mobile.as_str().is_empty(),
            Entry::Website => !self.website.as_str().is_empty(),
            Entry::Address => !self.address.as_str().is_empty(),
            Entry::Note => !self.note.as_str().is_empty(),
            _ => true,
        }
    }

    /// Appends to `out` what follows the tag in an entry of this kind.
    fn push_content(&self, kind: Entry, out: &mut String)
        ensures
            final(out)@ == old(out)@ + kind.content(self@),
    {
        match kind {
            Entry::Begin | Entry::Version | Entry::End => {},
            Entry::Name => {
                out.append(self.last_name.as_str());
                out.append(";");
                out.append(self.first_name.as_str());
                out.append(";;;");
            },
            Entry::FormattedName => {
                out.append(self.first_name.as_str());
                out.append(" ");
                out.append(self.last_name.as_str());
            },
            Entry::Organization => out.append(self.organization.as_str()),
            Entry::Title => out.append(self.title.as_str()),
            Entry::Email => out.append(self.email.as_str()),
            Entry::Phone => out.append(self.phone.as_str()),
            Entry::Mobile => out.append(self.mobile.as_str()),
            Entry::Website => out.append(self.website.as_str()),
            Entry::Address => {
                out.append(self.address.as_str());
                out.append(";;;;");
            },
            Entry::Note => out.append(self.note.as_str()),
        }
    }

    /// The vCard 3.0 text of this contact: the entries of `vcard_entries`,
    /// joined by line feeds. Field values are written as they are.
    pub fn generate_vcard(&self) -> (vcard: String)
        ensures
            vcard@ == vcard_text(self@),
    {
        let mut out = String::new();
        let mut n: usize = 0;
        while n < ENTRY_KINDS
            invariant
                n <= ENTRY_KINDS,
                out@ == join_lines(entries_upto(self@, n as nat)),
            decreases ENTRY_KINDS - n,
        {
            let kind = Entry::nth(n);
            let ghost before = entries_upto(self@, n as nat);
            let ghost after = entries_upto(self@, (n + 1) as nat);
            if self.writes(kind) {
                if n > 0 {
                    out.append("\n");
                }
                out.append(kind.tag_str());
                self.push_content(kind, &mut out);
                proof {
                    reveal_strlit("\n");
                    if n > 0 {
                        lemma_entries_upto_len(self@, n as nat);
                    }
                    assert(after.drop_last() =~= before);
                }
            }
            n += 1;
        }
        proof {
            lemma_all_entries(self@);
        }
        out
    }
}

} // verus!
