use pacaptr::exec::gate::{Gate, Reply};
use pacaptr::exec::prompt::{accept_answer, read_answer};
use pacaptr::exec::text::{is_among, same_text, strip_line_ending, strip_trailing};

const WORDS: [&str; 7] = ["", "y", "yes", "a", "all", "n", "no"];

#[test]
fn yes_proceeds_and_leaves_the_state() {
    for answer in ["", "y", "yes"] {
        let mut gate = Gate::new();
        assert_eq!(gate.decide(answer), Reply::Proceed);
        assert!(!gate.always_yes());
    }
}

#[test]
fn all_proceeds_and_is_remembered() {
    for answer in ["a", "all"] {
        let mut gate = Gate::new();
        assert!(!gate.always_yes());
        assert_eq!(gate.decide(answer), Reply::Proceed);
        assert!(gate.always_yes());
    }
}

#[test]
fn no_declines_and_leaves_the_state() {
    for answer in ["n", "no"] {
        let mut gate = Gate::new();
        assert_eq!(gate.decide(answer), Reply::Decline);
        assert!(!gate.always_yes());
    }
}

#[test]
fn anything_else_asks_again() {
    for answer in ["maybe", "yess", "Y", "ALL", " y", "y ", "nope", "al", "ye", "\n"] {
        let mut gate = Gate::new();
        assert_eq!(gate.decide(answer), Reply::Again);
        assert!(!gate.always_yes());
    }
}

#[test]
fn once_open_always_open() {
    let mut gate = Gate::new();
    assert_eq!(gate.decide("a"), Reply::Proceed);
    for answer in ["n", "no", "y", "", "what", "a", "all"] {
        gate.decide(answer);
        assert!(gate.always_yes());
    }
    for _ in 0..100 {
        assert!(gate.always_yes());
    }
}

#[test]
fn hear_folds_case_and_drops_the_line_ending() {
    let mut gate = Gate::new();
    assert_eq!(gate.hear("Y\n"), Reply::Proceed);
    assert_eq!(gate.hear("YES\r\n"), Reply::Proceed);
    assert_eq!(gate.hear("\n"), Reply::Proceed);
    assert_eq!(gate.hear(""), Reply::Proceed);
    assert_eq!(gate.hear("No\n"), Reply::Decline);
    assert_eq!(gate.hear("N"), Reply::Decline);
    assert_eq!(gate.hear("nay\n"), Reply::Again);
    assert_eq!(gate.hear("y\n\n"), Reply::Again);
    assert!(!gate.always_yes());
    assert_eq!(gate.hear("ALL\n"), Reply::Proceed);
    assert!(gate.always_yes());
    let mut gate = Gate::new();
    assert_eq!(gate.hear("A\r\n"), Reply::Proceed);
    assert!(gate.always_yes());
}

#[test]
fn read_answer_without_case() {
    assert_eq!(read_answer("YES\n", &WORDS, false), Some("yes".to_string()));
    assert_eq!(read_answer("All\r\n", &WORDS, false), Some("all".to_string()));
    assert_eq!(read_answer("\n", &WORDS, false), Some("".to_string()));
    assert_eq!(read_answer("n", &WORDS, false), Some("n".to_string()));
    assert_eq!(read_answer("what\n", &WORDS, false), None);
    assert_eq!(read_answer("yes \n", &WORDS, false), None);
    assert_eq!(read_answer("STRASSE\n", &["strasse"], false), Some("strasse".to_string()));
}

#[test]
fn read_answer_with_case() {
    assert_eq!(read_answer("YES\n", &WORDS, true), None);
    assert_eq!(read_answer("yes\n", &WORDS, true), Some("yes".to_string()));
    assert_eq!(read_answer("Yes\n", &["Yes", "No"], true), Some("Yes".to_string()));
    assert_eq!(read_answer("yes\n", &["Yes", "No"], true), None);
    assert_eq!(read_answer("x", &[], true), None);
}

#[test]
fn accept_answer_takes_the_line_as_it_is() {
    assert_eq!(accept_answer("y\r\n", &WORDS), Some("y".to_string()));
    assert_eq!(accept_answer("Y\r\n", &WORDS), None);
    assert_eq!(accept_answer("y\n\r", &WORDS), None);
    assert_eq!(accept_answer("y\r", &WORDS), Some("y".to_string()));
}

#[test]
fn line_endings_are_dropped_once() {
    assert_eq!(strip_line_ending("abc\n"), "abc");
    assert_eq!(strip_line_ending("abc\r\n"), "abc");
    assert_eq!(strip_line_ending("abc\r"), "abc");
    assert_eq!(strip_line_ending("abc"), "abc");
    assert_eq!(strip_line_ending("abc\n\n"), "abc\n");
    assert_eq!(strip_line_ending("abc\r\r\n"), "abc\r");
    assert_eq!(strip_line_ending("abc\n\r"), "abc\n");
    assert_eq!(strip_line_ending(""), "");
    assert_eq!(strip_line_ending("\n"), "");
    assert_eq!(strip_line_ending("h\u{e9}\u{e9}\n"), "h\u{e9}\u{e9}");
    assert_eq!(strip_trailing("abc", 'c'), "ab");
    assert_eq!(strip_trailing("abc", 'b'), "abc");
    assert_eq!(strip_trailing("", 'b'), "");
    assert_eq!(strip_trailing("\u{e9}\u{e9}", '\u{e9}'), "\u{e9}");
}

#[test]
fn texts_are_compared_character_for_character() {
    assert!(same_text("", ""));
    assert!(same_text("abc", "abc"));
    assert!(!same_text("abc", "abd"));
    assert!(!same_text("abc", "ab"));
    assert!(!same_text("", "a"));
    assert!(same_text("h\u{e9}", "h\u{e9}"));
    assert!(!same_text("h\u{e9}", "he"));
    assert!(is_among("b", &["a", "b"]));
    assert!(!is_among("c", &["a", "b"]));
    assert!(!is_among("c", &[]));
    assert!(is_among("", &["a", ""]));
}

#[test]
fn questions_have_a_fixed_form() {
    assert_eq!(
        pacaptr::exec::prompt::question_line("Proceed", "[Yes/all/no]"),
        "Proceed [Yes/all/no]: "
    );
    assert_eq!(pacaptr::exec::prompt::question_line("", ""), " : ");
}
