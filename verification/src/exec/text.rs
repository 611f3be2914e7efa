//! Small operations on text that the rest of the engine builds on.

use vstd::prelude::*;
use vstd::string::StringSliceAdditionalSpecFns;

verus! {

/// The lowercase form of a text, as the standard library computes it for the
/// whole of Unicode.
pub uninterp spec fn lowercase(text: Seq<char>) -> Seq<char>;

/// Folds a text to lowercase.
///
/// Trusted: calls `str::to_lowercase`, whose result is determined by the
/// text alone (the Unicode lowercase mapping, followed for every character,
/// with no regard to locale).  The mapping itself is not spelled out here;
/// the result is only given the name [`lowercase`].
#[verifier::external_body]
pub(crate) fn to_lowercase(text: &str) -> (lower: String)
    ensures
        lower@ == lowercase(text@),
{
    text.to_lowercase()
}

/// The text without its last character, if that character is `c`.
pub open spec fn without_trailing(text: Seq<char>, c: char) -> Seq<char> {
    if text.len() > 0 && text.last() == c {
        text.drop_last()
    } else {
        text
    }
}

/// The text without the line ending that a line reader leaves in place: one
/// trailing line feed is dropped, then one trailing carriage return.
pub open spec fn without_line_ending(text: Seq<char>) -> Seq<char> {
    without_trailing(without_trailing(text, '\n'), '\r')
}

/// Drops the last character of a text if it is `c`.
pub fn strip_trailing(text: &str, c: char) -> (rest: &str)
    ensures
        rest@ == without_trailing(text@, c),
{
    let len = text.unicode_len();
    if len > 0 && text.get_char(len - 1) == c {
        let rest = text.substring_char(0, len - 1);
        assert(rest@ =~= text@.drop_last());
        rest
    } else {
        text
    }
}

/// Drops the line ending of a line that was read from a console.
pub fn strip_line_ending(line: &str) -> (rest: &str)
    ensures
        rest@ == without_line_ending(line@),
{
    strip_trailing(strip_trailing(line, '\n'), '\r')
}

/// Whether two texts are the same, character for character.
pub fn same_text(a: &str, b: &str) -> (same: bool)
    ensures
        same == (a@ == b@),
{
    let x = a.as_bytes();
    let y = b.as_bytes();
    proof {
        // Two texts with the same encoding decode to the same characters.
        vstd::utf8::encode_utf8_decode_utf8(a@);
        vstd::utf8::encode_utf8_decode_utf8(b@);
    }
    if x.len() != y.len() {
        return false;
    }
    let mut i: usize = 0;
    while i < x.len()
        invariant
            i <= x.len(),
            x.len() == y.len(),
            x@ == a.spec_bytes(),
            y@ == b.spec_bytes(),
            forall|j: int| 0 <= j < i ==> x@[j] == y@[j],
        decreases x.len() - i,
    {
        if x[i] != y[i] {
            return false;
        }
        i += 1;
    }
    assert(x@ =~= y@);
    true
}

/// Whether `text` is one of `words`.
pub fn is_among(text: &str, words: &[&str]) -> (found: bool)
    ensures
        found == words.deep_view().contains(text@),
{
    let mut i: usize = 0;
    while i < words.len()
        invariant
            i <= words.len(),
            forall|j: int| 0 <= j < i ==> words.deep_view()[j] != text@,
        decreases words.len() - i,
    {
        if same_text(words[i], text) {
            assert(words.deep_view()[i as int] == text@);
            return true;
        }
        i += 1;
    }
    false
}

} // verus!
