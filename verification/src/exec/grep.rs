//! Filtering captured output: the lines of a text that match every one of a
//! list of regular expressions.

use regex::Regex;
use vstd::prelude::*;

use super::text::without_trailing;

verus! {

#[verifier::external_type_specification]
#[verifier::external_body]
pub struct ExRegex(Regex);

/// The regular expression that a pattern compiles to, if it compiles.
pub uninterp spec fn regex_of(pattern: Seq<char>) -> Option<Regex>;

/// Whether a regular expression finds a match anywhere in a text.
pub uninterp spec fn regex_matches(regex: Regex, text: Seq<char>) -> bool;

/// Compiles a pattern.
///
/// Trusted: calls `regex::Regex::new`, which returns an error for a pattern
/// that is not valid or that would compile to more than the default size
/// limit, and the compiled expression otherwise.  Which patterns compile, and
/// to what, is determined by the pattern alone and is only given the name
/// [`regex_of`]; the error is dropped.
#[verifier::external_body]
pub(crate) fn compile(pattern: &str) -> (compiled: Option<Regex>)
    ensures
        compiled == regex_of(pattern@),
{
    Regex::new(pattern).ok()
}

/// Searches a text for a match.
///
/// Trusted: calls `regex::Regex::is_match`, which returns `true` if and only
/// if there is a match for the expression anywhere in the text.  What matches
/// is determined by the expression and the text alone and is only given the
/// name [`regex_matches`].
#[verifier::external_body]
pub(crate) fn is_match(regex: &Regex, text: &str) -> (found: bool)
    ensures
        found == regex_matches(*regex, text@),
{
    regex.is_match(text)
}

/// The number of characters before the first line feed of a text, or the
/// length of the text if it has none.
pub open spec fn line_end(text: Seq<char>) -> int
    decreases text.len(),
{
    if text.len() == 0 || text[0] == '\n' {
        0
    } else {
        1 + line_end(text.drop_first())
    }
}

/// The lines of a text.
///
/// A line ends at a line feed, or at the end of the text.  Neither the line
/// feed nor a carriage return directly before it belongs to the line; any
/// other carriage return does.  Nothing follows a final line feed: a text
/// that ends with one has the same lines as the text without it.
pub open spec fn lines_of(text: Seq<char>) -> Seq<Seq<char>>
    decreases text.len(),
{
    if text.len() == 0 {
        Seq::empty()
    } else {
        let end = line_end(text);
        if 0 <= end < text.len() {
            seq![without_trailing(text.subrange(0, end), '\r')] + lines_of(
                text.subrange(end + 1, text.len() as int),
            )
        } else {
            seq![text]
        }
    }
}

/// Splits a text into its lines.
///
/// Trusted: calls `str::lines`, documented to split at line feeds and at
/// carriage returns followed by a line feed, not to include these line
/// endings in the lines, to leave every other carriage return in place, and
/// to treat a final line ending as optional.  [`lines_of`] states this.  Each
/// line is copied into a string of its own.
#[verifier::external_body]
pub(crate) fn lines(text: &str) -> (found: Vec<String>)
    ensures
        found.deep_view() == lines_of(text@),
{
    text.lines().map(|line| line.to_owned()).collect()
}

/// Every pattern compiles.
pub open spec fn all_compile(patterns: Seq<Seq<char>>) -> bool {
    forall|i: int| 0 <= i < patterns.len() ==> (#[trigger] regex_of(patterns[i])) is Some
}

/// The line is matched by every pattern that compiles.
pub open spec fn matches_all(patterns: Seq<Seq<char>>, line: Seq<char>) -> bool {
    forall|i: int|
        0 <= i < patterns.len() ==> ((#[trigger] regex_of(patterns[i])) matches Some(regex)
            ==> regex_matches(regex, line))
}

/// The lines that are matched by every pattern, in their order.
pub open spec fn matching_lines(lines: Seq<Seq<char>>, patterns: Seq<Seq<char>>) -> Seq<Seq<char>>
    decreases lines.len(),
{
    if lines.len() == 0 {
        Seq::empty()
    } else {
        let before = matching_lines(lines.drop_last(), patterns);
        if matches_all(patterns, lines.last()) {
            before.push(lines.last())
        } else {
            before
        }
    }
}

/// Compiles every pattern, or none if one of them does not compile.
pub fn compile_all(patterns: &[&str]) -> (compiled: Option<Vec<Regex>>)
    ensures
        match compiled {
            Some(regexes) => {
                &&& regexes.len() == patterns.len()
                &&& forall|i: int|
                    0 <= i < patterns.len() ==> regex_of(#[trigger] patterns.deep_view()[i])
                        == Some(regexes[i])
            },
            None => !all_compile(patterns.deep_view()),
        },
{
    let mut regexes: Vec<Regex> = Vec::new();
    let mut i: usize = 0;
    while i < patterns.len()
        invariant
            i <= patterns.len(),
            regexes.len() == i,
            forall|j: int|
                0 <= j < i ==> regex_of(#[trigger] patterns.deep_view()[j]) == Some(regexes[j]),
        decreases patterns.len() - i,
    {
        match compile(patterns[i]) {
            Some(regex) => {
                regexes.push(regex);
            },
            None => {
                assert(regex_of(patterns.deep_view()[i as int]) is None);
                return None;
            },
        }
        i += 1;
    }
    Some(regexes)
}

/// Whether a line is matched by every one of the expressions.
pub fn matched_by_all(regexes: &Vec<Regex>, line: &str) -> (all: bool)
    ensures
        all == (forall|i: int| 0 <= i < regexes.len() ==> regex_matches(#[trigger] regexes[i], line@)),
{
    let mut i: usize = 0;
    while i < regexes.len()
        invariant
            i <= regexes.len(),
            forall|j: int| 0 <= j < i ==> regex_matches(#[trigger] regexes[j], line@),
        decreases regexes.len() - i,
    {
        if !is_match(&regexes[i], line) {
            return false;
        }
        i += 1;
    }
    true
}

/// Find all lines in the given `text` that match all the `patterns`.  Every
/// pattern has to compile.
pub fn grep(text: &str, patterns: &[&str]) -> (found: Vec<String>)
    requires
        all_compile(patterns.deep_view()),
    ensures
        found.deep_view() == matching_lines(lines_of(text@), patterns.deep_view()),
{
    let regexes = match compile_all(patterns) {
        Some(regexes) => regexes,
        None => {
            return Vec::new();
        },
    };
    let all = lines(text);
    let mut found: Vec<String> = Vec::new();
    let mut i: usize = 0;
    assert(all.deep_view().take(0) =~= Seq::empty());
    assert(found.deep_view() =~= Seq::empty());
    while i < all.len()
        invariant
            i <= all.len(),
            regexes.len() == patterns.len(),
            forall|j: int|
                0 <= j < patterns.len() ==> regex_of(#[trigger] patterns.deep_view()[j]) == Some(
                    regexes[j],
                ),
            found.deep_view() == matching_lines(
                all.deep_view().take(i as int),
                patterns.deep_view(),
            ),
        decreases all.len() - i,
    {
        let ghost before = all.deep_view().take(i as int);
        let ghost upto = all.deep_view().take(i + 1);
        let ghost kept = found.deep_view();
        proof {
            assert(upto.drop_last() =~= before);
            assert(upto.last() == all[i as int]@);
        }
        let hit = matched_by_all(&regexes, all[i].as_str());
        proof {
            let line = all[i as int]@;
            if hit {
                assert forall|j: int| 0 <= j < patterns.len() implies ((
                #[trigger] regex_of(patterns.deep_view()[j])) matches Some(regex)
                    ==> regex_matches(regex, line)) by {
                    assert(regex_matches(regexes[j], line));
                }
            } else {
                let j = choose|j: int| 0 <= j < regexes.len() && !regex_matches(regexes[j], line);
                assert(regex_of(patterns.deep_view()[j]) == Some(regexes[j]));
            }
            assert(hit == matches_all(patterns.deep_view(), line));
        }
        if hit {
            found.push(all[i].clone());
            assert(found.deep_view() =~= kept.push(all[i as int]@));
        }
        i += 1;
    }
    assert(all.deep_view().take(all.len() as int) =~= all.deep_view());
    found
}

/// Like [`grep`], but for patterns of which nothing is known: if one of them
/// does not compile, nothing is searched and nothing returned.
pub fn try_grep(text: &str, patterns: &[&str]) -> (found: Option<Vec<String>>)
    ensures
        match found {
            Some(lines) => all_compile(patterns.deep_view()) && lines.deep_view()
                == matching_lines(lines_of(text@), patterns.deep_view()),
            None => !all_compile(patterns.deep_view()),
        },
{
    match compile_all(patterns) {
        Some(_) => Some(grep(text, patterns)),
        None => None,
    }
}

} // verus!
