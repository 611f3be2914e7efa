//! The confirmation gate: the "Yes/all/no" protocol that every command
//! needing consent goes through.
//!
//! A [`Gate`] remembers one thing: whether the user has answered "all".
//! Once that has happened, nobody is asked again for as long as it lives.

use vstd::prelude::*;

use super::prompt::answer_of;
use super::text::{same_text, strip_line_ending, to_lowercase};

verus! {

/// What an answer leads to.
#[derive(Copy, Clone, Debug, PartialEq, Eq, Structural)]
pub enum Reply {
    /// Go ahead with the command.
    Proceed,
    /// Skip the command.
    Decline,
    /// The answer was not understood: ask again.
    Again,
}

/// The answers that mean "yes, this once": nothing at all, `y` or `yes`.
pub open spec fn says_yes(answer: Seq<char>) -> bool {
    answer.len() == 0 || answer == "y"@ || answer == "yes"@
}

/// The answers that mean "yes, and do not ask again": `a` or `all`.
pub open spec fn says_all(answer: Seq<char>) -> bool {
    answer == "a"@ || answer == "all"@
}

/// The answers that mean "no": `n` or `no`.
pub open spec fn says_no(answer: Seq<char>) -> bool {
    answer == "n"@ || answer == "no"@
}

/// What an answer leads to.
pub open spec fn reply_to(answer: Seq<char>) -> Reply {
    if says_yes(answer) || says_all(answer) {
        Reply::Proceed
    } else if says_no(answer) {
        Reply::Decline
    } else {
        Reply::Again
    }
}

/// Whether nobody is asked any more after an answer: so it is if it was so
/// before, or if the answer was "all".
pub open spec fn open_after(was_open: bool, answer: Seq<char>) -> bool {
    was_open || says_all(answer)
}

/// The state of the confirmation protocol.
#[derive(Debug)]
pub struct Gate {
    always_yes: bool,
}

impl Gate {
    /// Whether the user has said "all".
    pub closed spec fn is_open(&self) -> bool {
        self.always_yes
    }

    /// The state in which nothing has been answered yet.
    pub fn new() -> (gate: Gate)
        ensures
            !gate.is_open(),
    {
        Gate { always_yes: false }
    }

    /// Whether the user has said "all", so that commands proceed unasked.
    pub fn always_yes(&self) -> (open: bool)
        ensures
            open == self.is_open(),
    {
        self.always_yes
    }

    /// Takes an answer in its final form (lowercase, no line ending).
    pub fn decide(&mut self, answer: &str) -> (reply: Reply)
        ensures
            reply == reply_to(answer@),
            final(self).is_open() == open_after(old(self).is_open(), answer@),
    {
        proof {
            reveal_strlit("");
            assert((answer@.len() == 0) == (answer@ =~= ""@));
        }
        if same_text(answer, "") || same_text(answer, "y") || same_text(answer, "yes") {
            proof {
                lemma_answers_differ();
            }
            Reply::Proceed
        } else if same_text(answer, "a") || same_text(answer, "all") {
            self.always_yes = true;
            Reply::Proceed
        } else if same_text(answer, "n") || same_text(answer, "no") {
            Reply::Decline
        } else {
            Reply::Again
        }
    }

    /// Takes a line as it was read from the console.
    pub fn hear(&mut self, line: &str) -> (reply: Reply)
        ensures
            reply == reply_to(answer_of(line@, false)),
            final(self).is_open() == open_after(old(self).is_open(), answer_of(line@, false)),
    {
        let folded = to_lowercase(line);
        let answer = strip_line_ending(folded.as_str());
        self.decide(answer)
    }
}

/// No answer means two things at once.
pub proof fn lemma_answers_differ()
    ensures
        forall|answer: Seq<char>| !(says_yes(answer) && says_all(answer)),
        forall|answer: Seq<char>| !(says_yes(answer) && says_no(answer)),
        forall|answer: Seq<char>| !(says_all(answer) && says_no(answer)),
{
    reveal_strlit("y");
    reveal_strlit("yes");
    reveal_strlit("a");
    reveal_strlit("all");
    reveal_strlit("n");
    reveal_strlit("no");
    assert forall|answer: Seq<char>| !(says_yes(answer) && says_all(answer)) by {
        if says_yes(answer) && says_all(answer) {
            assert(answer.len() > 0);
            assert(answer[0] == 'y');
            assert(answer[0] == 'a');
        }
    }
    assert forall|answer: Seq<char>| !(says_yes(answer) && says_no(answer)) by {
        if says_yes(answer) && says_no(answer) {
            assert(answer.len() > 0);
            assert(answer[0] == 'y');
            assert(answer[0] == 'n');
        }
    }
    assert forall|answer: Seq<char>| !(says_all(answer) && says_no(answer)) by {
        if says_all(answer) && says_no(answer) {
            assert(answer[0] == 'a');
            assert(answer[0] == 'n');
        }
    }
}

/// Consent for all commands is given once and for all: no answer takes it
/// back.
pub proof fn lemma_gate_stays_open(answer: Seq<char>)
    ensures
        open_after(true, answer),
{
}

/// Whether nobody is asked any more after a series of answers, taken in
/// order.
pub open spec fn open_after_all(was_open: bool, answers: Seq<Seq<char>>) -> bool
    decreases answers.len(),
{
    if answers.len() == 0 {
        was_open
    } else {
        open_after(open_after_all(was_open, answers.drop_last()), answers.last())
    }
}

/// After one "a", whatever was answered before and whatever is answered
/// afterwards, commands proceed and nobody is asked.
pub proof fn lemma_all_is_remembered(
    was_open: bool,
    before: Seq<Seq<char>>,
    after: Seq<Seq<char>>,
)
    ensures
        reply_to("a"@) == Reply::Proceed,
        open_after_all(was_open, before + seq!["a"@] + after),
    decreases after.len(),
{
    let answers = before + seq!["a"@] + after;
    if after.len() == 0 {
        assert(answers.drop_last() =~= before);
        assert(answers.last() == "a"@);
    } else {
        lemma_all_is_remembered(was_open, before, after.drop_last());
        assert(answers.drop_last() =~= before + seq!["a"@] + after.drop_last());
    }
}

} // verus!
