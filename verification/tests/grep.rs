use pacaptr::exec::grep::{compile_all, grep, matched_by_all, try_grep};

const LIST: &str = "# packages in environment at /opt/conda:\n\
numpy                     1.19.2           py38h54aff64_0\n\
numpy-base                1.19.2           py38hfa32c7d_0\n\
python                    3.8.5                h7579374_1\n\
scipy                     1.5.2            py38h0b6359f_0\n";

#[test]
fn grep_keeps_the_lines_that_match() {
    assert_eq!(
        grep(LIST, &["numpy"]),
        vec![
            "numpy                     1.19.2           py38h54aff64_0".to_string(),
            "numpy-base                1.19.2           py38hfa32c7d_0".to_string(),
        ]
    );
}

#[test]
fn grep_wants_every_pattern_to_match() {
    assert_eq!(
        grep(LIST, &["numpy", "base"]),
        vec!["numpy-base                1.19.2           py38hfa32c7d_0".to_string()]
    );
    assert_eq!(grep(LIST, &["numpy", "scipy"]), Vec::<String>::new());
    assert_eq!(grep(LIST, &["^p.*_1$"]), vec![
        "python                    3.8.5                h7579374_1".to_string()
    ]);
}

#[test]
fn grep_without_patterns_gives_every_line() {
    assert_eq!(grep("a\nb\n", &[]), vec!["a".to_string(), "b".to_string()]);
    assert_eq!(grep("a\nb", &[]), vec!["a".to_string(), "b".to_string()]);
    assert_eq!(grep("", &[]), Vec::<String>::new());
    assert_eq!(grep("\n", &[]), vec!["".to_string()]);
    assert_eq!(grep("\n\n", &[]), vec!["".to_string(), "".to_string()]);
}

#[test]
fn grep_lines_end_at_line_feeds() {
    assert_eq!(
        grep("foo\nbar\n\r\nbaz\r", &[]),
        vec!["foo".to_string(), "bar".to_string(), "".to_string(), "baz\r".to_string()]
    );
    assert_eq!(grep("a\r\nb\r\n", &[]), vec!["a".to_string(), "b".to_string()]);
    assert_eq!(grep("a\r\r\nb", &[]), vec!["a\r".to_string(), "b".to_string()]);
    assert_eq!(grep("a\rb\n", &[]), vec!["a\rb".to_string()]);
}

#[test]
fn grep_is_case_sensitive_by_default() {
    assert_eq!(grep("Wget\nwget\n", &["wget"]), vec!["wget".to_string()]);
    assert_eq!(grep("Wget\nwget\n", &["(?i)wget"]), vec!["Wget".to_string(), "wget".to_string()]);
}

#[test]
fn try_grep_refuses_a_pattern_that_does_not_compile() {
    assert_eq!(try_grep(LIST, &["foo(bar"]), None);
    assert_eq!(try_grep(LIST, &["numpy", "["]), None);
    assert_eq!(try_grep(LIST, &["scipy"]), Some(vec![
        "scipy                     1.5.2            py38h0b6359f_0".to_string()
    ]));
    assert_eq!(try_grep("", &[]), Some(vec![]));
}

#[test]
fn compile_all_is_all_or_nothing() {
    assert!(compile_all(&["a", "b+"]).is_some());
    assert_eq!(compile_all(&["a", "b+"]).map(|r| r.len()), Some(2));
    assert!(compile_all(&["a", "b("]).is_none());
    assert_eq!(compile_all(&[]).map(|r| r.len()), Some(0));
}

#[test]
fn matched_by_all_asks_each_expression() {
    let both = compile_all(&["^a", "c$"]).unwrap();
    assert!(matched_by_all(&both, "abc"));
    assert!(!matched_by_all(&both, "abd"));
    assert!(!matched_by_all(&both, "bc"));
    assert!(matched_by_all(&Vec::new(), "anything"));
}
