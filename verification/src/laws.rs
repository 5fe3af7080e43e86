//! What holds of every vCard text.

use vstd::prelude::*;
use vstd::utf8::encode_utf8;
use crate::lines::{
    lemma_line_at_joined, line_at, occurs_at, one_line_with, plain_word, runs_into, some_line_with,
};
use crate::vcard::{
    ContactView, Entry, entries_upto, join_lines, lemma_all_entries, lemma_entries_upto_len,
    vcard_entries, vcard_text,
};

verus! {

/// Some entry that is written for `c` holds a line feed in a field value,
/// and the line after it begins with `word`. Field values are written as
/// they are, so such a value puts a line of its own making into the text.
pub open spec fn breaks_into(c: ContactView, word: Seq<char>) -> bool {
    exists|k: Entry| #[trigger] k.written(c) && runs_into(k.text(c), word)
}

/// The place of a kind of entry in the order of writing.
spec fn place(k: Entry) -> nat {
    match k {
        Entry::Begin => 0,
        Entry::Version => 1,
        Entry::Name => 2,
        Entry::FormattedName => 3,
        Entry::Organization => 4,
        Entry::Title => 5,
        Entry::Email => 6,
        Entry::Phone => 7,
        Entry::Mobile => 8,
        Entry::Website => 9,
        Entry::Address => 10,
        Entry::Note => 11,
        Entry::End => 12,
    }
}

/// Where in the text the entry at place `n` starts, if it is written.
spec fn start_upto(c: ContactView, n: nat) -> int {
    if n == 0 {
        0int
    } else {
        join_lines(entries_upto(c, n)).len() as int + 1
    }
}

/// The entry at place `n` is written, and in it a line that begins with
/// `word` starts where the text has position `i`.
spec fn entry_line_at(c: ContactView, n: nat, i: int, word: Seq<char>) -> bool {
    Entry::at(n).written(c) && line_at(Entry::at(n).text(c), i - start_upto(c, n), word)
}

spec fn some_entry_line_at(c: ContactView, n: nat, i: int, word: Seq<char>) -> bool {
    exists|m: nat| m < n && entry_line_at(c, m, i, word)
}

/// Every line of the first `n` entries lies in one of them.
proof fn lemma_lines_upto(c: ContactView, word: Seq<char>, n: nat)
    requires
        plain_word(word),
        1 <= n,
    ensures
        forall|i: int|
            line_at(join_lines(entries_upto(c, n)), i, word) <==> some_entry_line_at(
                c,
                n,
                i,
                word,
            ),
    decreases n,
{
    let all = entries_upto(c, n);
    if n == 1 {
        reveal_with_fuel(entries_upto, 2);
        assert forall|i: int|
            line_at(join_lines(all), i, word) <==> some_entry_line_at(c, n, i, word) by {
            if line_at(join_lines(all), i, word) {
                assert(entry_line_at(c, 0, i, word));
            }
        }
    } else {
        let prev: nat = (n - 1) as nat;
        let before = entries_upto(c, prev);
        let k = Entry::at(prev);
        lemma_lines_upto(c, word, prev);
        lemma_entries_upto_len(c, prev);
        if k.written(c) {
            assert(all.drop_last() =~= before);
        }
        assert forall|i: int|
            line_at(join_lines(all), i, word) <==> some_entry_line_at(c, n, i, word) by {
            if k.written(c) {
                lemma_line_at_joined(join_lines(before), k.text(c), word, i);
                if line_at(k.text(c), i - join_lines(before).len() - 1, word) {
                    assert(entry_line_at(c, prev, i, word));
                }
            }
            if some_entry_line_at(c, prev, i, word) {
                let m: nat = choose|m: nat| m < prev && entry_line_at(c, m, i, word);
                assert(m < n && entry_line_at(c, m, i, word));
            }
        }
    }
}

/// What the text literals of the tags hold.
proof fn lemma_tag_letters()
    ensures
        "BEGIN:VCARD"@.len() == 11 && "BEGIN:VCARD"@[0] == 'B',
        "VERSION:3.0"@.len() == 11 && "VERSION:3.0"@[0] == 'V',
        "N:"@ == seq!['N', ':'],
        "FN:"@ == seq!['F', 'N', ':'],
        "ORG:"@ == seq!['O', 'R', 'G', ':'],
        "TITLE:"@ == seq!['T', 'I', 'T', 'L', 'E', ':'],
        "URL:"@ == seq!['U', 'R', 'L', ':'],
        "NOTE:"@ == seq!['N', 'O', 'T', 'E', ':'],
        "END:VCARD"@.len() == 9 && "END:VCARD"@[0] == 'E' && "END:VCARD"@[1] == 'N',
        "EMAIL;type=WORK,INTERNET:"@.len() == 25 && "EMAIL;type=WORK,INTERNET:"@[0] == 'E'
            && "EMAIL;type=WORK,INTERNET:"@[1] == 'M',
        "TEL;type=WORK,voice:"@.len() == 20 && "TEL;type=WORK,voice:"@[0] == 'T'
            && "TEL;type=WORK,voice:"@[1] == 'E' && "TEL;type=WORK,voice:"@[9] == 'W',
        "TEL;type=CELL,voice:"@.len() == 20 && "TEL;type=CELL,voice:"@[0] == 'T'
            && "TEL;type=CELL,voice:"@[1] == 'E' && "TEL;type=CELL,voice:"@[9] == 'C',
        "ADR;type=WORK:;;"@.len() == 16 && "ADR;type=WORK:;;"@[0] == 'A',
        forall|k: Entry| plain_word(#[trigger] k.tag()),
{
    reveal_strlit("BEGIN:VCARD");
    reveal_strlit("VERSION:3.0");
    reveal_strlit("N:");
    reveal_strlit("FN:");
    reveal_strlit("ORG:");
    reveal_strlit("TITLE:");
    reveal_strlit("EMAIL;type=WORK,INTERNET:");
    reveal_strlit("TEL;type=WORK,voice:");
    reveal_strlit("TEL;type=CELL,voice:");
    reveal_strlit("URL:");
    reveal_strlit("ADR;type=WORK:;;");
    reveal_strlit("NOTE:");
    reveal_strlit("END:VCARD");
}

/// A position at which the tags of two different kinds differ.
spec fn tags_part(k: Entry, other: Entry) -> int {
    if k.tag()[0] != other.tag()[0] {
        0
    } else if k.tag()[1] != other.tag()[1] {
        1
    } else {
        9
    }
}

/// No entry begins with the tag of another kind.
proof fn lemma_tags_differ(k: Entry, other: Entry, c: ContactView)
    requires
        k != other,
    ensures
        !occurs_at(k.text(c), 0, other.tag()),
{
    lemma_tag_letters();
    let d: int = tags_part(k, other);
    assert(k.text(c)[d] != other.tag()[d]);
}

/// Every entry begins with its own tag.
proof fn lemma_own_tag(k: Entry, c: ContactView)
    ensures
        line_at(k.text(c), 0, k.tag()),
{
    assert(k.text(c).subrange(0, k.tag().len() as int) =~= k.tag());
}

proof fn lemma_places(k: Entry)
    ensures
        place(k) < 13,
        Entry::at(place(k)) == k,
{
}

/// Every line of a vCard text lies in one of its entries: a line that
/// begins with `word` starts at `i` exactly if some written entry has such
/// a line where the text has position `i`.
proof fn lemma_lines_of_text(c: ContactView, word: Seq<char>)
    requires
        plain_word(word),
    ensures
        forall|i: int| line_at(vcard_text(c), i, word) <==> some_entry_line_at(c, 13, i, word),
{
    lemma_all_entries(c);
    lemma_lines_upto(c, word, 13);
}

/// Where no entry breaks into a line that begins with the tag of `k`, the
/// only line of the text that can begin with that tag is the entry of kind
/// `k` itself, at its own place.
proof fn lemma_tag_line(c: ContactView, k: Entry)
    requires
        !breaks_into(c, k.tag()),
    ensures
        forall|i: int|
            line_at(vcard_text(c), i, k.tag()) <==> k.written(c) && i == start_upto(c, place(k)),
{
    let word = k.tag();
    lemma_tag_letters();
    lemma_lines_of_text(c, word);
    lemma_places(k);
    assert forall|i: int| line_at(vcard_text(c), i, word) <==> k.written(c) && i == start_upto(
        c,
        place(k),
    ) by {
        if line_at(vcard_text(c), i, word) {
            let m: nat = choose|m: nat| m < 13 && entry_line_at(c, m, i, word);
            let other = Entry::at(m);
            if i > start_upto(c, m) {
                assert(runs_into(other.text(c), word));
            } else if other != k {
                lemma_tags_differ(other, k, c);
            }
        }
        if k.written(c) && i == start_upto(c, place(k)) {
            lemma_own_tag(k, c);
            assert(entry_line_at(c, place(k), i, word));
        }
    }
}

/// A vCard text starts with the line `BEGIN:VCARD` and ends with
/// `END:VCARD`, with no line feed after it.
pub proof fn lemma_text_is_framed(c: ContactView)
    ensures
        ("BEGIN:VCARD"@ + seq!['\n']).is_prefix_of(vcard_text(c)),
        "END:VCARD"@.is_suffix_of(vcard_text(c)),
        vcard_text(c).last() != '\n',
{
    lemma_all_entries(c);
    lemma_framed_upto(c, 13);
    lemma_entries_upto_len(c, 12);
    reveal_strlit("END:VCARD");
}

/// From the second entry on, the text so far starts with the first line
/// and the line feed after it.
proof fn lemma_framed_upto(c: ContactView, n: nat)
    requires
        2 <= n,
    ensures
        ("BEGIN:VCARD"@ + seq!['\n']).is_prefix_of(join_lines(entries_upto(c, n))),
    decreases n,
{
    let head = "BEGIN:VCARD"@ + seq!['\n'];
    let all = entries_upto(c, n);
    let prev: nat = (n - 1) as nat;
    let before = entries_upto(c, prev);
    lemma_entries_upto_len(c, prev);
    if n == 2 {
        reveal_with_fuel(entries_upto, 3);
        assert(all.drop_last() =~= before);
    } else {
        lemma_framed_upto(c, prev);
        if Entry::at(prev).written(c) {
            assert(all.drop_last() =~= before);
            assert(join_lines(all).subrange(0, head.len() as int) =~= join_lines(before).subrange(
                0,
                head.len() as int,
            ));
        }
    }
}

/// Entries follow one another: a later entry starts after the line feed
/// that ends an earlier one.
proof fn lemma_starts_in_order(c: ContactView, m: nat, n: nat)
    requires
        m < n,
        Entry::at(m).written(c),
    ensures
        start_upto(c, m) + Entry::at(m).text(c).len() + 1 <= start_upto(c, n),
    decreases n,
{
    let prev: nat = (n - 1) as nat;
    if prev == 0 {
        reveal_with_fuel(entries_upto, 2);
    } else {
        lemma_entries_upto_len(c, prev);
        if Entry::at(prev).written(c) {
            assert(entries_upto(c, n).drop_last() =~= entries_upto(c, prev));
        }
        if m < prev {
            lemma_starts_in_order(c, m, prev);
        }
    }
}

/// Which lines of a vCard text begin with the tag of a kind of entry.
///
/// Such a line is there exactly if the kind is written or some field value
/// breaks into a line of that beginning. Where the kind is written, the
/// line is the only one exactly if no field value breaks into another.
pub proof fn lemma_lines_with_tag(c: ContactView, k: Entry)
    ensures
        some_line_with(vcard_text(c), k.tag()) <==> k.written(c) || breaks_into(c, k.tag()),
        k.written(c) ==> (one_line_with(vcard_text(c), k.tag()) <==> !breaks_into(c, k.tag())),
{
    let word = k.tag();
    let text = vcard_text(c);
    lemma_tag_letters();
    lemma_lines_of_text(c, word);
    lemma_places(k);
    let own: int = start_upto(c, place(k));
    if k.written(c) {
        lemma_own_tag(k, c);
        assert(entry_line_at(c, place(k), own, word));
        assert(line_at(text, own, word));
    }
    if breaks_into(c, word) {
        let other = choose|other: Entry| #[trigger] other.written(c) && runs_into(other.text(c), word);
        let j: int = choose|j: int| j > 0 && line_at(other.text(c), j, word);
        lemma_places(other);
        let i: int = start_upto(c, place(other)) + j;
        assert(entry_line_at(c, place(other), i, word));
        assert(line_at(text, i, word));
        if k.written(c) {
            if place(other) < place(k) {
                lemma_starts_in_order(c, place(other), place(k));
            } else if place(k) < place(other) {
                lemma_starts_in_order(c, place(k), place(other));
            }
        }
    } else {
        lemma_tag_line(c, k);
    }
}

/// The text has exactly one `N:` line and exactly one `FN:` line. Left out
/// are the records in which a field value breaks into a line that begins
/// like one of the two: of those the statement is false.
pub proof fn lemma_one_line_for_each_name(c: ContactView)
    requires
        !breaks_into(c, "N:"@),
        !breaks_into(c, "FN:"@),
    ensures
        one_line_with(vcard_text(c), "N:"@),
        one_line_with(vcard_text(c), "FN:"@),
{
    lemma_lines_with_tag(c, Entry::Name);
    lemma_lines_with_tag(c, Entry::FormattedName);
}

/// The line of a kind of entry is in the text if and only if that kind is
/// written: for the entry of an optional field, if and only if the field
/// is not empty. Left out are the records in which the kind is not written
/// and yet a field value breaks into a line that begins with its tag: of
/// those the statement is false.
pub proof fn lemma_line_iff_written(c: ContactView, k: Entry)
    requires
        k.written(c) || !breaks_into(c, k.tag()),
    ensures
        some_line_with(vcard_text(c), k.tag()) <==> k.written(c),
{
    lemma_lines_with_tag(c, k);
}

/// Encoding is a function of the record: equal records have equal texts,
/// character for character and so byte for byte, whenever they are encoded.
pub proof fn lemma_encoding_is_deterministic(
    a: ContactView,
    b: ContactView,
    first: Seq<char>,
    second: Seq<char>,
)
    requires
        a == b,
        first == vcard_text(a),
        second == vcard_text(b),
    ensures
        first == second,
        encode_utf8(first) == encode_utf8(second),
{
}

} // verus!
