use pacaptr::exec::Cmd;
use pacaptr::pm::{Conda, Config, Handling, Job};

fn conda(dry_run: bool) -> Conda {
    Conda { cfg: Config { dry_run } }
}

fn native_prompt() -> Handling {
    Handling::NativePrompt { no_confirm: vec!["-y".to_string()] }
}

#[test]
fn conda_name_and_settings() {
    let c = conda(true);
    assert_eq!(c.name(), "conda");
    assert_eq!(*c.cfg(), Config { dry_run: true });
}

#[test]
fn conda_q_lists_or_searches() {
    assert_eq!(
        conda(false).q(&[], &["--json"]),
        Job { cmd: Cmd::new(&["conda", "list"]).flags(&["--json"]), handling: Handling::Plain }
    );
    assert_eq!(
        conda(false).q(&["numpy"], &[]),
        Job {
            cmd: Cmd::new(&["conda", "list"]),
            handling: Handling::Filter { patterns: vec!["numpy".to_string()], announce: true },
        }
    );
}

#[test]
fn conda_qs_filters_the_list() {
    assert_eq!(
        conda(true).qs(&["num", "py"], &["-n", "base"]),
        Job {
            cmd: Cmd::new(&["conda", "list"]).flags(&["-n", "base"]),
            handling: Handling::Filter {
                patterns: vec!["num".to_string(), "py".to_string()],
                announce: false,
            },
        }
    );
}

#[test]
fn conda_changes_leave_the_asking_to_conda() {
    let c = conda(false);
    assert_eq!(
        c.r(&["numpy"], &["--force"]),
        Job {
            cmd: Cmd::new(&["conda", "remove"]).kws(&["numpy"]).flags(&["--force"]),
            handling: native_prompt(),
        }
    );
    assert_eq!(
        c.s(&["numpy", "scipy"], &[]),
        Job {
            cmd: Cmd::new(&["conda", "install"]).kws(&["numpy", "scipy"]),
            handling: native_prompt(),
        }
    );
    assert_eq!(
        c.sc(&["ignored"], &["--dry-run"]),
        Job {
            cmd: Cmd::new(&["conda", "clean", "--all"]).flags(&["--dry-run"]),
            handling: native_prompt(),
        }
    );
    let update = Job {
        cmd: Cmd::new(&["conda", "update", "--all"]).kws(&["numpy"]).flags(&["-c", "x"]),
        handling: native_prompt(),
    };
    assert_eq!(c.su(&["numpy"], &["-c", "x"]), update);
    assert_eq!(c.suy(&["numpy"], &["-c", "x"]), update);
}

#[test]
fn conda_si_shows_information() {
    assert_eq!(
        conda(false).si(&["wget"], &[]),
        Job {
            cmd: Cmd::new(&["conda", "search", "--info"]).kws(&["wget"]),
            handling: Handling::Plain,
        }
    );
}

#[test]
fn conda_ss_searches_each_keyword_anywhere() {
    assert_eq!(
        conda(false).ss(&["wget", "curl"], &["-c", "forge"]),
        vec![
            Job {
                cmd: Cmd::new(&["conda", "search"]).kws(&["*wget*"]).flags(&["-c", "forge"]),
                handling: Handling::Plain,
            },
            Job {
                cmd: Cmd::new(&["conda", "search"]).kws(&["*curl*"]).flags(&["-c", "forge"]),
                handling: Handling::Plain,
            },
        ]
    );
    assert_eq!(conda(false).ss(&[], &["-v"]), vec![]);
}

#[test]
fn conda_commands_are_never_elevated() {
    let c = conda(false);
    for job in [c.q(&[], &[]), c.r(&["x"], &[]), c.s(&["x"], &[]), c.su(&[], &[])] {
        assert!(!job.cmd.sudo);
        assert!(!job.cmd.needs_sudo_as(false));
    }
}
