use pacaptr::exec::{Cmd, ExecError, SpawnSpec};

fn strs(words: &[&str]) -> Vec<String> {
    words.iter().map(|w| w.to_string()).collect()
}

#[test]
fn new_holds_the_program_words_only() {
    let c = Cmd::new(&["conda", "list"]);
    assert!(!c.sudo);
    assert_eq!(c.cmd, strs(&["conda", "list"]));
    assert!(c.kws.is_empty());
    assert!(c.flags.is_empty());
}

#[test]
fn new_sudo_asks_for_elevation() {
    let c = Cmd::new_sudo(&["apt", "install"]);
    assert!(c.sudo);
    assert_eq!(c.cmd, strs(&["apt", "install"]));
    assert!(c.kws.is_empty());
    assert!(c.flags.is_empty());
}

#[test]
fn builders_replace_one_field_each() {
    let c = Cmd::new(&["brew", "install"]).kws(&["curl", "fish"]).flags(&["--dry-run"]);
    assert_eq!(
        c,
        Cmd {
            sudo: false,
            cmd: strs(&["brew", "install"]),
            kws: strs(&["curl", "fish"]),
            flags: strs(&["--dry-run"]),
        }
    );
    let c = c.kws(&["wget"]).sudo(true).flags(&[]);
    assert_eq!(
        c,
        Cmd { sudo: true, cmd: strs(&["brew", "install"]), kws: strs(&["wget"]), flags: vec![] }
    );
    assert!(!c.sudo(false).sudo);
}

#[test]
fn default_is_empty_and_clone_is_equal() {
    let d = Cmd::default();
    assert_eq!(d, Cmd { sudo: false, cmd: vec![], kws: vec![], flags: vec![] });
    let c = Cmd::new_sudo(&["a", "b"]).kws(&["c"]).flags(&["-d"]);
    assert_eq!(c.clone(), c);
}

#[test]
fn needs_sudo_follows_the_policy() {
    let plain = Cmd::new(&["apt"]);
    let asked = Cmd::new_sudo(&["apt"]);
    assert!(!plain.needs_sudo_as(false));
    assert!(!plain.needs_sudo_as(true));
    assert!(asked.needs_sudo_as(false));
    assert!(!asked.needs_sudo_as(true));
}

#[test]
fn needs_sudo_is_never_true_unasked() {
    assert!(!Cmd::new(&["apt"]).needs_sudo());
}

#[test]
fn build_puts_flags_before_keywords() {
    let c = Cmd::new(&["zypper", "install"]).kws(&["curl"]).flags(&["-y"]);
    assert_eq!(
        c.build_as(false),
        Ok(SpawnSpec { program: "zypper".to_string(), args: strs(&["install", "-y", "curl"]) })
    );
}

#[test]
fn build_elevated_wraps_the_whole_command() {
    let c = Cmd::new_sudo(&["zypper", "install"]).kws(&["curl", "fish"]).flags(&["-y", "-v"]);
    assert_eq!(
        c.build_as(false),
        Ok(SpawnSpec {
            program: "sudo".to_string(),
            args: strs(&["-S", "zypper", "install", "-y", "-v", "curl", "fish"]),
        })
    );
}

#[test]
fn build_as_privileged_never_escalates() {
    let c = Cmd::new_sudo(&["zypper", "install"]).kws(&["curl"]).flags(&["-y"]);
    assert_eq!(
        c.build_as(true),
        Ok(SpawnSpec { program: "zypper".to_string(), args: strs(&["install", "-y", "curl"]) })
    );
}

#[test]
fn build_of_a_single_word_has_no_arguments() {
    assert_eq!(
        Cmd::new(&["ls"]).build_as(false),
        Ok(SpawnSpec { program: "ls".to_string(), args: vec![] })
    );
}

#[test]
fn build_without_program_is_refused() {
    let c = Cmd::new(&[]).kws(&["x"]);
    assert_eq!(c.build_as(false), Err(ExecError::InvalidCommand));
    let c = Cmd::new_sudo(&[]).kws(&["x"]).flags(&["-y"]);
    assert_eq!(c.build_as(false), Err(ExecError::InvalidCommand));
    assert_eq!(Cmd::new_sudo(&[]).build_as(true), Err(ExecError::InvalidCommand));
    assert_eq!(Cmd::new(&[]).build(), Err(ExecError::InvalidCommand));
}

#[test]
fn build_unasked_does_not_depend_on_the_user() {
    let c = Cmd::new(&["echo"]).kws(&["hi"]);
    assert_eq!(c.build(), Ok(SpawnSpec { program: "echo".to_string(), args: strs(&["hi"]) }));
}

#[test]
fn spawn_spec_clone_is_equal() {
    let s = SpawnSpec { program: "a".to_string(), args: strs(&["b", "c"]) };
    assert_eq!(s.clone(), s);
}

#[test]
fn line_shows_keywords_before_flags() {
    let c = Cmd::new(&["brew", "install"]).kws(&["curl", "fish"]).flags(&["--dry-run"]);
    assert_eq!(c.to_string_as(false), "brew install curl fish --dry-run");
    assert_eq!(c.to_string_as(true), "brew install curl fish --dry-run");
    assert_eq!(c.to_string(), "brew install curl fish --dry-run");
}

#[test]
fn line_has_the_prefix_only_when_elevated() {
    let c = Cmd::new_sudo(&["apt", "install"]).kws(&["curl"]).flags(&["-y"]);
    assert_eq!(c.to_string_as(false), "sudo -S apt install curl -y");
    assert_eq!(c.to_string_as(true), "apt install curl -y");
}

#[test]
fn line_without_elevation_never_has_the_prefix() {
    let cmds = vec![
        Cmd::new(&["apt"]),
        Cmd::new(&["apt", "install"]).kws(&["sudo"]),
        Cmd::new(&["a"]).flags(&["-S"]),
        Cmd::new(&[]),
    ];
    for c in cmds {
        for privileged in [false, true] {
            assert!(!c.to_string_as(privileged).contains("sudo -S "));
        }
    }
}

#[test]
fn line_of_odd_commands() {
    assert_eq!(Cmd::new(&[]).to_string_as(false), "");
    assert_eq!(Cmd::new_sudo(&[]).to_string_as(false), "sudo -S ");
    assert_eq!(Cmd::new(&["a"]).to_string_as(false), "a");
    assert_eq!(Cmd::new(&["a", "", "b"]).to_string_as(false), "a  b");
    assert_eq!(Cmd::new(&[]).kws(&["k"]).flags(&["-f"]).to_string_as(false), "k -f");
}
