//! The commands of Conda.

use vstd::prelude::*;

use super::job::{Config, Handling, HandlingView, Job, JobView};
use crate::exec::cmd::{owned_words, Cmd, CmdView};

verus! {

/// The Conda package manager.
#[derive(Debug)]
pub struct Conda {
    pub cfg: Config,
}

/// A Conda command: `conda` and the given subcommand words, with keywords
/// and flags, never elevated.
pub open spec fn conda_cmd(sub: Seq<Seq<char>>, kws: Seq<Seq<char>>, flags: Seq<Seq<char>>) -> CmdView {
    CmdView { sudo: false, cmd: seq!["conda"@] + sub, kws, flags }
}

/// Conda asks before it changes anything, unless it is given `-y`.
pub open spec fn conda_prompt() -> HandlingView {
    HandlingView::NativePrompt { no_confirm: seq!["-y"@] }
}

/// A keyword between two asterisks, to search for it anywhere in a name.
pub open spec fn anywhere(kw: Seq<char>) -> Seq<char> {
    seq!['*'] + kw + seq!['*']
}

/// The job that searches for one keyword.
pub open spec fn conda_search(kw: Seq<char>, flags: Seq<Seq<char>>) -> JobView {
    JobView {
        cmd: conda_cmd(seq!["search"@], seq![anywhere(kw)], flags),
        handling: HandlingView::Plain,
    }
}

fn native_prompt() -> (handling: Handling)
    ensures
        handling@ == conda_prompt(),
{
    let mut no_confirm: Vec<String> = Vec::new();
    no_confirm.push("-y".to_owned());
    let handling = Handling::NativePrompt { no_confirm };
    assert(handling@->NativePrompt_no_confirm =~= seq!["-y"@]);
    handling
}

impl Conda {
    /// Gets the name of the package manager.
    pub fn name(&self) -> (name: String)
        ensures
            name@ == "conda"@,
    {
        "conda".to_owned()
    }

    /// The settings that this package manager works under.
    pub fn cfg(&self) -> (cfg: &Config)
        ensures
            *cfg == self.cfg,
    {
        &self.cfg
    }

    /// Q generates a list of installed packages.  Without keywords the whole
    /// list is shown; with keywords it is searched, as by [`Conda::qs`].
    pub fn q(&self, kws: &[&str], flags: &[&str]) -> (job: Job)
        ensures
            job@.cmd == conda_cmd(seq!["list"@], Seq::empty(), flags.deep_view()),
            job@.handling == (if kws@.len() == 0 {
                HandlingView::Plain
            } else {
                HandlingView::Filter { patterns: kws.deep_view(), announce: !self.cfg.dry_run }
            }),
    {
        if kws.len() == 0 {
            let cmd = Cmd::new(&["conda", "list"]).flags(flags);
            assert(cmd@.cmd =~= seq!["conda"@] + seq!["list"@]);
            Job { cmd, handling: Handling::Plain }
        } else {
            self.qs(kws, flags)
        }
    }

    /// Qs searches locally installed package for names or descriptions: the
    /// list of installed packages is taken silently, and of its lines those
    /// are shown that match every keyword.
    pub fn qs(&self, kws: &[&str], flags: &[&str]) -> (job: Job)
        ensures
            job@ == (JobView {
                cmd: conda_cmd(seq!["list"@], Seq::empty(), flags.deep_view()),
                handling: HandlingView::Filter {
                    patterns: kws.deep_view(),
                    announce: !self.cfg.dry_run,
                },
            }),
    {
        let cmd = Cmd::new(&["conda", "list"]).flags(flags);
        assert(cmd@.cmd =~= seq!["conda"@] + seq!["list"@]);
        Job {
            cmd,
            handling: Handling::Filter { patterns: owned_words(kws), announce: !self.cfg.dry_run },
        }
    }

    /// R removes a single package, leaving all of its dependencies installed.
    pub fn r(&self, kws: &[&str], flags: &[&str]) -> (job: Job)
        ensures
            job@ == (JobView {
                cmd: conda_cmd(seq!["remove"@], kws.deep_view(), flags.deep_view()),
                handling: conda_prompt(),
            }),
    {
        let cmd = Cmd::new(&["conda", "remove"]).kws(kws).flags(flags);
        assert(cmd@.cmd =~= seq!["conda"@] + seq!["remove"@]);
        Job { cmd, handling: native_prompt() }
    }

    /// S installs one or more packages by name.
    pub fn s(&self, kws: &[&str], flags: &[&str]) -> (job: Job)
        ensures
            job@ == (JobView {
                cmd: conda_cmd(seq!["install"@], kws.deep_view(), flags.deep_view()),
                handling: conda_prompt(),
            }),
    {
        let cmd = Cmd::new(&["conda", "install"]).kws(kws).flags(flags);
        assert(cmd@.cmd =~= seq!["conda"@] + seq!["install"@]);
        Job { cmd, handling: native_prompt() }
    }

    /// Sc removes all the cached packages that are not currently installed,
    /// and the unused sync database.  Keywords are not used.
    pub fn sc(&self, _kws: &[&str], flags: &[&str]) -> (job: Job)
        ensures
            job@ == (JobView {
                cmd: conda_cmd(seq!["clean"@, "--all"@], Seq::empty(), flags.deep_view()),
                handling: conda_prompt(),
            }),
    {
        let cmd = Cmd::new(&["conda", "clean", "--all"]).flags(flags);
        assert(cmd@.cmd =~= seq!["conda"@] + seq!["clean"@, "--all"@]);
        Job { cmd, handling: native_prompt() }
    }

    /// Si displays remote package information: name, version, description,
    /// etc.
    pub fn si(&self, kws: &[&str], flags: &[&str]) -> (job: Job)
        ensures
            job@ == (JobView {
                cmd: conda_cmd(seq!["search"@, "--info"@], kws.deep_view(), flags.deep_view()),
                handling: HandlingView::Plain,
            }),
    {
        let cmd = Cmd::new(&["conda", "search", "--info"]).kws(kws).flags(flags);
        assert(cmd@.cmd =~= seq!["conda"@] + seq!["search"@, "--info"@]);
        Job { cmd, handling: Handling::Plain }
    }

    /// Ss searches for package(s) by searching the expression in name,
    /// description, short description: one search for each keyword, in
    /// order.
    pub fn ss(&self, kws: &[&str], flags: &[&str]) -> (jobs: Vec<Job>)
        ensures
            jobs.len() == kws.len(),
            forall|i: int|
                0 <= i < kws.len() ==> (#[trigger] jobs[i])@ == conda_search(
                    kws[i]@,
                    flags.deep_view(),
                ),
    {
        let mut jobs: Vec<Job> = Vec::new();
        let mut i: usize = 0;
        while i < kws.len()
            invariant
                i <= kws.len(),
                jobs.len() == i,
                forall|j: int|
                    0 <= j < i ==> (#[trigger] jobs[j])@ == conda_search(
                        kws[j]@,
                        flags.deep_view(),
                    ),
            decreases kws.len() - i,
        {
            let mut kw = "*".to_owned();
            kw.append(kws[i]);
            kw.append("*");
            proof {
                reveal_strlit("*");
                assert(kw@ =~= anywhere(kws[i as int]@));
            }
            let mut words: Vec<String> = Vec::new();
            words.push(kw);
            let cmd = Cmd::new(&["conda", "search"]).flags(flags);
            let cmd = Cmd { kws: words, ..cmd };
            proof {
                assert(cmd@.cmd =~= seq!["conda"@] + seq!["search"@]);
                assert(cmd@.kws =~= seq![anywhere(kws[i as int]@)]);
            }
            jobs.push(Job { cmd, handling: Handling::Plain });
            i += 1;
        }
        jobs
    }

    /// Su updates outdated packages.
    pub fn su(&self, kws: &[&str], flags: &[&str]) -> (job: Job)
        ensures
            job@ == (JobView {
                cmd: conda_cmd(seq!["update"@, "--all"@], kws.deep_view(), flags.deep_view()),
                handling: conda_prompt(),
            }),
    {
        let cmd = Cmd::new(&["conda", "update", "--all"]).kws(kws).flags(flags);
        assert(cmd@.cmd =~= seq!["conda"@] + seq!["update"@, "--all"@]);
        Job { cmd, handling: native_prompt() }
    }

    /// Suy refreshes the local package database, then updates outdated
    /// packages.
    pub fn suy(&self, kws: &[&str], flags: &[&str]) -> (job: Job)
        ensures
            job@ == (JobView {
                cmd: conda_cmd(seq!["update"@, "--all"@], kws.deep_view(), flags.deep_view()),
                handling: conda_prompt(),
            }),
    {
        self.su(kws, flags)
    }
}

} // verus!
