use vcard_qr::vcard::{Entry, ENTRY_KINDS};

#[test]
fn there_are_thirteen_kinds() {
    assert_eq!(ENTRY_KINDS, 13);
}

#[test]
fn kinds_come_in_the_order_of_writing() {
    let expected = [
        Entry::Begin,
        Entry::Version,
        Entry::Name,
        Entry::FormattedName,
        Entry::Organization,
        Entry::Title,
        Entry::Email,
        Entry::Phone,
        Entry::Mobile,
        Entry::Website,
        Entry::Address,
        Entry::Note,
        Entry::End,
    ];
    for (n, kind) in expected.iter().enumerate() {
        assert_eq!(Entry::nth(n), *kind);
    }
}

#[test]
fn beyond_the_last_place_is_the_last_kind() {
    assert_eq!(Entry::nth(13), Entry::End);
    assert_eq!(Entry::nth(usize::MAX), Entry::End);
}

#[test]
fn tags_are_those_of_vcard_3() {
    assert_eq!(Entry::Begin.tag_str(), "BEGIN:VCARD");
    assert_eq!(Entry::Version.tag_str(), "VERSION:3.0");
    assert_eq!(Entry::Name.tag_str(), "N:");
    assert_eq!(Entry::FormattedName.tag_str(), "FN:");
    assert_eq!(Entry::Organization.tag_str(), "ORG:");
    assert_eq!(Entry::Title.tag_str(), "TITLE:");
    assert_eq!(Entry::Email.tag_str(), "EMAIL;type=WORK,INTERNET:");
    assert_eq!(Entry::Phone.tag_str(), "TEL;type=WORK,voice:");
    assert_eq!(Entry::Mobile.tag_str(), "TEL;type=CELL,voice:");
    assert_eq!(Entry::Website.tag_str(), "URL:");
    assert_eq!(Entry::Address.tag_str(), "ADR;type=WORK:;;");
    assert_eq!(Entry::Note.tag_str(), "NOTE:");
    assert_eq!(Entry::End.tag_str(), "END:VCARD");
}

#[test]
fn no_tag_begins_another() {
    for a in 0..ENTRY_KINDS {
        for b in 0..ENTRY_KINDS {
            if a != b {
                assert!(!Entry::nth(a).tag_str().starts_with(Entry::nth(b).tag_str()));
            }
        }
    }
}
