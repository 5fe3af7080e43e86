//! Lines of a text: where they start and what they begin with.
//!
//! A text is read as lines that a line feed separates. The statements here
//! are about positions, so that no text has to be cut up.

use vstd::prelude::*;

verus! {

/// A line of `text` starts at position `i`: at the very beginning, or right
/// after a line feed.
pub open spec fn line_start(text: Seq<char>, i: int) -> bool {
    0 <= i <= text.len() && (i == 0 || text[i - 1] == '\n')
}

/// `word` stands in `text` from position `i` on.
pub open spec fn occurs_at(text: Seq<char>, i: int, word: Seq<char>) -> bool {
    0 <= i && i + word.len() <= text.len() && text.subrange(i, i + word.len()) == word
}

/// A line of `text` starts at `i` and begins with `word`.
pub open spec fn line_at(text: Seq<char>, i: int, word: Seq<char>) -> bool {
    line_start(text, i) && occurs_at(text, i, word)
}

/// Some line of `text` begins with `word`.
pub open spec fn some_line_with(text: Seq<char>, word: Seq<char>) -> bool {
    exists|i: int| line_at(text, i, word)
}

/// Exactly one line of `text` begins with `word`.
pub open spec fn one_line_with(text: Seq<char>, word: Seq<char>) -> bool {
    exists|i: int| #[trigger] line_at(text, i, word) && forall|j: int| line_at(text, j, word) ==> j == i
}

/// `text` goes on after a line feed of its own with a line that begins with `word`.
pub open spec fn runs_into(text: Seq<char>, word: Seq<char>) -> bool {
    exists|i: int| i > 0 && line_at(text, i, word)
}

/// A word that can begin a line: it is not empty and holds no line feed.
pub open spec fn plain_word(word: Seq<char>) -> bool {
    word.len() > 0 && forall|j: int| 0 <= j < word.len() ==> word[j] != '\n'
}

/// The lines of two texts joined by a line feed are the lines of the first
/// and the lines of the second, the latter moved behind the first.
pub proof fn lemma_line_at_joined(a: Seq<char>, b: Seq<char>, word: Seq<char>, i: int)
    requires
        plain_word(word),
    ensures
        line_at(a + seq!['\n'] + b, i, word) <==> line_at(a, i, word) || line_at(
            b,
            i - a.len() - 1,
            word,
        ),
{
    let text = a + seq!['\n'] + b;
    let n: int = word.len() as int;
    let j: int = i - a.len() - 1;
    if line_at(a, i, word) {
        assert(text.subrange(i, i + n) =~= a.subrange(i, i + n));
    }
    if line_at(b, j, word) {
        assert(text.subrange(i, i + n) =~= b.subrange(j, j + n));
    }
    if line_at(text, i, word) {
        if i + n <= a.len() {
            assert(a.subrange(i, i + n) =~= text.subrange(i, i + n));
        } else if i <= a.len() {
            assert(word[a.len() - i] != '\n');
        } else {
            assert(b.subrange(j, j + n) =~= text.subrange(i, i + n));
        }
    }
}

} // verus!
