//! Choosing the package manager: which one a platform is likely to have, and
//! which one a name stands for.

use vstd::prelude::*;

use crate::exec::text::same_text;

verus! {

/// The platforms that are told apart when looking for a package manager.
#[derive(Copy, Clone, Debug, PartialEq, Eq, Structural)]
pub enum Platform {
    Windows,
    MacOs,
    Linux,
    Other,
}

/// The names of the package managers that are looked for on a platform, in
/// the order in which they are preferred.
pub open spec fn candidate_names(platform: Platform) -> Seq<Seq<char>> {
    match platform {
        Platform::Windows => seq!["scoop"@, "choco"@],
        Platform::MacOs => seq!["brew"@, "port"@],
        Platform::Linux => seq!["apk"@, "apt"@, "dnf"@, "zypper"@],
        Platform::Other => Seq::empty(),
    }
}

/// The places where these package managers are installed, in the same
/// order; empty where there is no fixed place.
pub open spec fn candidate_paths(platform: Platform) -> Seq<Seq<char>> {
    match platform {
        Platform::Windows => seq![""@, ""@],
        Platform::MacOs => seq!["/usr/local/bin/brew"@, "/opt/local/bin/port"@],
        Platform::Linux => seq![
            "/sbin/apk"@,
            "/usr/bin/apt"@,
            "/usr/bin/dnf"@,
            "/usr/bin/zypper"@,
        ],
        Platform::Other => Seq::empty(),
    }
}

/// The package managers that are looked for on a platform, each with its
/// name and the place where it is installed.
pub fn candidates(platform: Platform) -> (pairs: Vec<(&'static str, &'static str)>)
    ensures
        pairs.len() == candidate_names(platform).len(),
        pairs.len() == candidate_paths(platform).len(),
        forall|i: int|
            0 <= i < pairs.len() ==> (#[trigger] pairs[i]).0@ == candidate_names(platform)[i]
                && pairs[i].1@ == candidate_paths(platform)[i],
{
    let mut pairs: Vec<(&'static str, &'static str)> = Vec::new();
    match platform {
        Platform::Windows => {
            pairs.push(("scoop", ""));
            pairs.push(("choco", ""));
        },
        Platform::MacOs => {
            pairs.push(("brew", "/usr/local/bin/brew"));
            pairs.push(("port", "/opt/local/bin/port"));
        },
        Platform::Linux => {
            pairs.push(("apk", "/sbin/apk"));
            pairs.push(("apt", "/usr/bin/apt"));
            pairs.push(("dnf", "/usr/bin/dnf"));
            pairs.push(("zypper", "/usr/bin/zypper"));
        },
        Platform::Other => {},
    }
    pairs
}

/// The first name, from position `from` on, whose package manager is
/// present; `unknown` if there is none.  A name without an entry in
/// `present` counts as absent.
pub open spec fn first_present(names: Seq<Seq<char>>, present: Seq<bool>, from: int) -> Seq<char>
    decreases names.len() - from,
{
    if from < 0 || from >= names.len() {
        "unknown"@
    } else if from < present.len() && present[from] {
        names[from]
    } else {
        first_present(names, present, from + 1)
    }
}

/// Detect the name of the package manager to be used in auto dispatch:
/// the first candidate of the platform that is present, where `present`
/// says of each candidate, in order, whether it was found to be an
/// executable.
pub fn detect_pm(platform: Platform, present: &[bool]) -> (name: &'static str)
    ensures
        name@ == first_present(candidate_names(platform), present@, 0),
{
    let pairs = candidates(platform);
    let mut i: usize = 0;
    while i < pairs.len()
        invariant
            i <= pairs.len(),
            pairs.len() == candidate_names(platform).len(),
            forall|j: int|
                0 <= j < pairs.len() ==> (#[trigger] pairs[j]).0@ == candidate_names(platform)[j],
            first_present(candidate_names(platform), present@, 0) == first_present(
                candidate_names(platform),
                present@,
                i as int,
            ),
        decreases pairs.len() - i,
    {
        if i < present.len() && present[i] {
            return pairs[i].0;
        }
        i += 1;
    }
    "unknown"
}

/// The package managers that are known.
#[derive(Debug, PartialEq, Eq)]
pub enum PmKind {
    Chocolatey,
    Scoop,
    Homebrew,
    Macports,
    Apk,
    Apt,
    Dnf,
    Zypper,
    Conda,
    /// Pip, run as the given command (`pip` or `pip3`).
    Pip { cmd: String },
    Tlmgr,
    /// A package manager that is not known, under the name it was asked for.
    Unknown { name: String },
}

/// The mathematical content of a [`PmKind`].
pub enum PmKindView {
    Chocolatey,
    Scoop,
    Homebrew,
    Macports,
    Apk,
    Apt,
    Dnf,
    Zypper,
    Conda,
    Pip { cmd: Seq<char> },
    Tlmgr,
    Unknown { name: Seq<char> },
}

impl View for PmKind {
    type V = PmKindView;

    open spec fn view(&self) -> PmKindView {
        match self {
            PmKind::Chocolatey => PmKindView::Chocolatey,
            PmKind::Scoop => PmKindView::Scoop,
            PmKind::Homebrew => PmKindView::Homebrew,
            PmKind::Macports => PmKindView::Macports,
            PmKind::Apk => PmKindView::Apk,
            PmKind::Apt => PmKindView::Apt,
            PmKind::Dnf => PmKindView::Dnf,
            PmKind::Zypper => PmKindView::Zypper,
            PmKind::Conda => PmKindView::Conda,
            PmKind::Pip { cmd } => PmKindView::Pip { cmd: cmd@ },
            PmKind::Tlmgr => PmKindView::Tlmgr,
            PmKind::Unknown { name } => PmKindView::Unknown { name: name@ },
        }
    }
}

/// The package manager that a name stands for.  `port` is known on macOS
/// only; a name that is not known stands for itself.
pub open spec fn pm_named(name: Seq<char>, platform: Platform) -> PmKindView {
    if name == "choco"@ {
        PmKindView::Chocolatey
    } else if name == "scoop"@ {
        PmKindView::Scoop
    } else if name == "brew"@ {
        PmKindView::Homebrew
    } else if name == "port"@ && platform == Platform::MacOs {
        PmKindView::Macports
    } else if name == "apk"@ {
        PmKindView::Apk
    } else if name == "apt"@ {
        PmKindView::Apt
    } else if name == "dnf"@ {
        PmKindView::Dnf
    } else if name == "zypper"@ {
        PmKindView::Zypper
    } else if name == "conda"@ {
        PmKindView::Conda
    } else if name == "pip"@ {
        PmKindView::Pip { cmd: "pip"@ }
    } else if name == "pip3"@ {
        PmKindView::Pip { cmd: "pip3"@ }
    } else if name == "tlmgr"@ {
        PmKindView::Tlmgr
    } else {
        PmKindView::Unknown { name }
    }
}

/// Tell which package manager a name stands for, on the given platform.
pub fn make_pm(pm_str: &str, platform: Platform) -> (pm: PmKind)
    ensures
        pm@ == pm_named(pm_str@, platform),
{
    if same_text(pm_str, "choco") {
        PmKind::Chocolatey
    } else if same_text(pm_str, "scoop") {
        PmKind::Scoop
    } else if same_text(pm_str, "brew") {
        PmKind::Homebrew
    } else if same_text(pm_str, "port") && matches!(platform, Platform::MacOs) {
        PmKind::Macports
    } else if same_text(pm_str, "apk") {
        PmKind::Apk
    } else if same_text(pm_str, "apt") {
        PmKind::Apt
    } else if same_text(pm_str, "dnf") {
        PmKind::Dnf
    } else if same_text(pm_str, "zypper") {
        PmKind::Zypper
    } else if same_text(pm_str, "conda") {
        PmKind::Conda
    } else if same_text(pm_str, "pip") {
        PmKind::Pip { cmd: "pip".to_owned() }
    } else if same_text(pm_str, "pip3") {
        PmKind::Pip { cmd: "pip3".to_owned() }
    } else if same_text(pm_str, "tlmgr") {
        PmKind::Tlmgr
    } else {
        PmKind::Unknown { name: pm_str.to_owned() }
    }
}

} // verus!
