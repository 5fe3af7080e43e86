//! The vCard 3.0 text of a contact, as a mathematical model.
//!
//! A vCard is a fixed list of entries. Each entry has a tag, a content that
//! is built from the contact's fields, and a rule that says whether it is
//! written at all. The text is the written entries, in order, joined by a
//! line feed.

use vstd::prelude::*;

verus! {

/// The fields of a contact as sequences of characters.
pub struct ContactView {
    pub first_name: Seq<char>,
    pub last_name: Seq<char>,
    pub organization: Seq<char>,
    pub title: Seq<char>,
    pub email: Seq<char>,
    pub phone: Seq<char>,
    pub mobile: Seq<char>,
    pub website: Seq<char>,
    pub address: Seq<char>,
    pub note: Seq<char>,
}

/// The kinds of entry of a vCard, in the order in which they are written.
#[derive(Clone, Copy, PartialEq, Eq, Structural, Debug)]
pub enum Entry {
    Begin,
    Version,
    Name,
    FormattedName,
    Organization,
    Title,
    Email,
    Phone,
    Mobile,
    Website,
    Address,
    Note,
    End,
}

impl Entry {
    /// The fixed text that an entry of this kind starts with.
    pub open spec fn tag(self) -> Seq<char> {
        match self {
            Entry::Begin => "BEGIN:VCARD"@,
            Entry::Version => "VERSION:3.0"@,
            Entry::Name => "N:"@,
            Entry::FormattedName => "FN:"@,
            Entry::Organization => "ORG:"@,
            Entry::Title => "TITLE:"@,
            Entry::Email => "EMAIL;type=WORK,INTERNET:"@,
            Entry::Phone => "TEL;type=WORK,voice:"@,
            Entry::Mobile => "TEL;type=CELL,voice:"@,
            Entry::Website => "URL:"@,
            Entry::Address => "ADR;type=WORK:;;"@,
            Entry::Note => "NOTE:"@,
            Entry::End => "END:VCARD"@,
        }
    }

    /// The tag as text.
    pub fn tag_str(self) -> (tag: &'static str)
        ensures
            tag@ == self.tag(),
    {
        match self {
            Entry::Begin => "BEGIN:VCARD",
            Entry::Version => "VERSION:3.0",
            Entry::Name => "N:",
            Entry::FormattedName => "FN:",
            Entry::Organization => "ORG:",
            Entry::Title => "TITLE:",
            Entry::Email => "EMAIL;type=WORK,INTERNET:",
            Entry::Phone => "TEL;type=WORK,voice:",
            Entry::Mobile => "TEL;type=CELL,voice:",
            Entry::Website => "URL:",
            Entry::Address => "ADR;type=WORK:;;",
            Entry::Note => "NOTE:",
            Entry::End => "END:VCARD",
        }
    }

    /// The kind of entry at place `n` in the order of writing; beyond the
    /// last place, the last kind.
    pub open spec fn at(n: nat) -> Entry {
        if n == 0 {
            Entry::Begin
        } else if n == 1 {
            Entry::Version
        } else if n == 2 {
            Entry::Name
        } else if n == 3 {
            Entry::FormattedName
        } else if n == 4 {
            Entry::Organization
        } else if n == 5 {
            Entry::Title
        } else if n == 6 {
            Entry::Email
        } else if n == 7 {
            Entry::Phone
        } else if n == 8 {
            Entry::Mobile
        } else if n == 9 {
            Entry::Website
        } else if n == 10 {
            Entry::Address
        } else if n == 11 {
            Entry::Note
        } else {
            Entry::End
        }
    }

    /// The kind of entry at place `n` in the order of writing.
    pub fn nth(n: usize) -> (kind: Entry)
        ensures
            kind == Entry::at(n as nat),
    {
        if n == 0 {
            Entry::Begin
        } else if n == 1 {
            Entry::Version
        } else if n == 2 {
            Entry::Name
        } else if n == 3 {
            Entry::FormattedName
        } else if n == 4 {
            Entry::Organization
        } else if n == 5 {
            Entry::Title
        } else if n == 6 {
            Entry::Email
        } else if n == 7 {
            Entry::Phone
        } else if n == 8 {
            Entry::Mobile
        } else if n == 9 {
            Entry::Website
        } else if n == 10 {
            Entry::Address
        } else if n == 11 {
            Entry::Note
        } else {
            Entry::End
        }
    }

    /// What follows the tag. Field values are taken as they are: nothing is escaped.
    pub open spec fn content(self, c: ContactView) -> Seq<char> {
        match self {
            Entry::Begin | Entry::Version | Entry::End => Seq::empty(),
            Entry::Name => c.last_name + ";"@ + c.first_name + ";;;"@,
            Entry::FormattedName => c.first_name + " "@ + c.last_name,
            Entry::Organization => c.organization,
            Entry::Title => c.title,
            Entry::Email => c.email,
            Entry::Phone => c.phone,
            Entry::Mobile => c.mobile,
            Entry::Website => c.website,
            Entry::Address => c.address + ";;;;"@,
            Entry::Note => c.note,
        }
    }

    /// Whether an entry of this kind is written for `c`. The entry of an
    /// optional field is written when the field is not empty; every other
    /// entry is always written.
    pub open spec fn written(self, c: ContactView) -> bool {
        match self {
            Entry::Organization => c.organization.len() > 0,
            Entry::Title => c.title.len() > 0,
            Entry::Email => c.email.len() > 0,
            Entry::Phone => c.phone.len() > 0,
            Entry::Mobile => c.mobile.len() > 0,
            Entry::Website => c.website.len() > 0,
            Entry::Address => c.address.len() > 0,
            Entry::Note => c.note.len() > 0,
            _ => true,
        }
    }

    /// The whole entry: tag, then content.
    pub open spec fn text(self, c: ContactView) -> Seq<char> {
        self.tag() + self.content(c)
    }

    /// The entry as a list: one text when it is written, nothing otherwise.
    pub open spec fn listed(self, c: ContactView) -> Seq<Seq<char>> {
        if self.written(c) {
            seq![self.text(c)]
        } else {
            Seq::empty()
        }
    }
}

/// The entries that are written for `c`, in order.
pub open spec fn vcard_entries(c: ContactView) -> Seq<Seq<char>> {
    Entry::Begin.listed(c) + Entry::Version.listed(c) + Entry::Name.listed(c)
        + Entry::FormattedName.listed(c) + Entry::Organization.listed(c) + Entry::Title.listed(c)
        + Entry::Email.listed(c) + Entry::Phone.listed(c) + Entry::Mobile.listed(c)
        + Entry::Website.listed(c) + Entry::Address.listed(c) + Entry::Note.listed(c)
        + Entry::End.listed(c)
}

/// How many kinds of entry there are.
pub const ENTRY_KINDS: usize = 13;

/// The entries that are written for `c` among the first `n` kinds.
pub open spec fn entries_upto(c: ContactView, n: nat) -> Seq<Seq<char>>
    decreases n,
{
    if n == 0 {
        Seq::empty()
    } else {
        entries_upto(c, (n - 1) as nat) + Entry::at((n - 1) as nat).listed(c)
    }
}

/// `lines` joined by a line feed, with none after the last.
pub open spec fn join_lines(lines: Seq<Seq<char>>) -> Seq<char>
    decreases lines.len(),
{
    if lines.len() == 0 {
        Seq::empty()
    } else if lines.len() == 1 {
        lines[0]
    } else {
        join_lines(lines.drop_last()) + seq!['\n'] + lines.last()
    }
}

/// The vCard text of a contact.
pub open spec fn vcard_text(c: ContactView) -> Seq<char> {
    join_lines(vcard_entries(c))
}

/// All the kinds together give all the entries of a vCard.
pub proof fn lemma_all_entries(c: ContactView)
    ensures
        vcard_entries(c) == entries_upto(c, ENTRY_KINDS as nat),
{
    reveal_with_fuel(entries_upto, 14);
}

/// The first entry is always written, so that the entries of one kind or
/// more are never none.
pub proof fn lemma_entries_upto_len(c: ContactView, n: nat)
    requires
        n >= 1,
    ensures
        entries_upto(c, n).len() >= 1,
    decreases n,
{
    if n == 1 {
        reveal_with_fuel(entries_upto, 2);
    } else {
        lemma_entries_upto_len(c, (n - 1) as nat);
    }
}

/// A vCard text is never empty: its first and last entries are always written.
pub proof fn lemma_vcard_text_not_empty(c: ContactView)
    ensures
        vcard_text(c).len() > 0,
{
}

} // verus!
