//! Reading an answer from the user.
//!
//! The caller shows a question and reads one line; what was read is judged
//! here.  A line that is not one of the expected answers is refused, and the
//! caller asks again.

use vstd::prelude::*;

use super::text::{is_among, lowercase, strip_line_ending, to_lowercase, without_line_ending};

verus! {

/// The answer that a line of input stands for: folded to lowercase unless
/// the question is case sensitive, and without its line ending.
pub open spec fn answer_of(line: Seq<char>, case_sensitive: bool) -> Seq<char> {
    if case_sensitive {
        without_line_ending(line)
    } else {
        without_line_ending(lowercase(line))
    }
}

/// Judges a line whose case has been dealt with already: the line ending is
/// dropped, and what is left is the answer if it is one of `expected`.
pub fn accept_answer(folded: &str, expected: &[&str]) -> (answer: Option<String>)
    ensures
        match answer {
            Some(a) => a@ == without_line_ending(folded@) && expected.deep_view().contains(a@),
            None => !expected.deep_view().contains(without_line_ending(folded@)),
        },
{
    let stripped = strip_line_ending(folded);
    if is_among(stripped, expected) {
        Some(stripped.to_owned())
    } else {
        None
    }
}

/// Judges one line of input.  Returns the answer if it is one of `expected`,
/// and nothing if the question has to be asked again.  If `case_sensitive`
/// is `false`, `expected` should hold lowercase words only.
pub fn read_answer(line: &str, expected: &[&str], case_sensitive: bool) -> (answer: Option<String>)
    ensures
        match answer {
            Some(a) => a@ == answer_of(line@, case_sensitive) && expected.deep_view().contains(a@),
            None => !expected.deep_view().contains(answer_of(line@, case_sensitive)),
        },
{
    if case_sensitive {
        accept_answer(line, expected)
    } else {
        let folded = to_lowercase(line);
        accept_answer(folded.as_str(), expected)
    }
}

/// The text that a question is put in: the question, a space, the options,
/// a colon and a space.
pub open spec fn question_text(question: Seq<char>, options: Seq<char>) -> Seq<char> {
    question + seq![' '] + options + seq![':', ' ']
}

/// Puts a question in its fixed form, ready to be shown.
pub fn question_line(question: &str, options: &str) -> (line: String)
    ensures
        line@ == question_text(question@, options@),
{
    let mut line = question.to_owned();
    line.append(" ");
    line.append(options);
    line.append(": ");
    proof {
        reveal_strlit(" ");
        reveal_strlit(": ");
        assert(line@ =~= question_text(question@, options@));
    }
    line
}

} // verus!
