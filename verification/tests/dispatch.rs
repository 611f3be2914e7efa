use pacaptr::dispatch::{candidates, detect_pm, make_pm, Platform, PmKind};
use pacaptr::exec::probe::is_exe;

#[test]
fn candidates_of_each_platform() {
    assert_eq!(candidates(Platform::Windows), vec![("scoop", ""), ("choco", "")]);
    assert_eq!(
        candidates(Platform::MacOs),
        vec![("brew", "/usr/local/bin/brew"), ("port", "/opt/local/bin/port")]
    );
    assert_eq!(
        candidates(Platform::Linux),
        vec![
            ("apk", "/sbin/apk"),
            ("apt", "/usr/bin/apt"),
            ("dnf", "/usr/bin/dnf"),
            ("zypper", "/usr/bin/zypper"),
        ]
    );
    assert_eq!(candidates(Platform::Other), vec![]);
}

#[test]
fn detect_takes_the_first_that_is_present() {
    assert_eq!(detect_pm(Platform::Linux, &[false, true, true, false]), "apt");
    assert_eq!(detect_pm(Platform::Linux, &[true, true, true, true]), "apk");
    assert_eq!(detect_pm(Platform::Linux, &[false, false, false, true]), "zypper");
    assert_eq!(detect_pm(Platform::MacOs, &[false, true]), "port");
    assert_eq!(detect_pm(Platform::Windows, &[true, false]), "scoop");
}

#[test]
fn detect_gives_unknown_when_nothing_is_present() {
    assert_eq!(detect_pm(Platform::Linux, &[false, false, false, false]), "unknown");
    assert_eq!(detect_pm(Platform::Linux, &[]), "unknown");
    assert_eq!(detect_pm(Platform::Linux, &[false, false]), "unknown");
    assert_eq!(detect_pm(Platform::Other, &[true, true]), "unknown");
    assert_eq!(detect_pm(Platform::Windows, &[false, false, true]), "unknown");
}

#[test]
fn make_pm_knows_the_names() {
    let p = Platform::Linux;
    assert_eq!(make_pm("choco", p), PmKind::Chocolatey);
    assert_eq!(make_pm("scoop", p), PmKind::Scoop);
    assert_eq!(make_pm("brew", p), PmKind::Homebrew);
    assert_eq!(make_pm("apk", p), PmKind::Apk);
    assert_eq!(make_pm("apt", p), PmKind::Apt);
    assert_eq!(make_pm("dnf", p), PmKind::Dnf);
    assert_eq!(make_pm("zypper", p), PmKind::Zypper);
    assert_eq!(make_pm("conda", p), PmKind::Conda);
    assert_eq!(make_pm("pip", p), PmKind::Pip { cmd: "pip".to_string() });
    assert_eq!(make_pm("pip3", p), PmKind::Pip { cmd: "pip3".to_string() });
    assert_eq!(make_pm("tlmgr", p), PmKind::Tlmgr);
}

#[test]
fn make_pm_knows_port_on_macos_only() {
    assert_eq!(make_pm("port", Platform::MacOs), PmKind::Macports);
    assert_eq!(make_pm("port", Platform::Linux), PmKind::Unknown { name: "port".to_string() });
    assert_eq!(make_pm("port", Platform::Windows), PmKind::Unknown { name: "port".to_string() });
}

#[test]
fn make_pm_keeps_an_unknown_name() {
    assert_eq!(make_pm("pacman", Platform::Linux), PmKind::Unknown { name: "pacman".to_string() });
    assert_eq!(make_pm("", Platform::Linux), PmKind::Unknown { name: "".to_string() });
    assert_eq!(make_pm("APT", Platform::Linux), PmKind::Unknown { name: "APT".to_string() });
}

#[test]
fn is_exe_counts_only_what_was_asked_for() {
    assert!(is_exe("apt", "/usr/bin/apt", true, false));
    assert!(is_exe("apt", "/usr/bin/apt", false, true));
    assert!(!is_exe("apt", "/usr/bin/apt", false, false));
    assert!(!is_exe("", "/usr/bin/apt", false, true));
    assert!(!is_exe("apt", "", true, false));
    assert!(is_exe("", "/usr/bin/apt", true, false));
    assert!(is_exe("apt", "", false, true));
    assert!(!is_exe("", "", true, true));
}
