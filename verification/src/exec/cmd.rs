//! The command value: what to run, with which arguments, and whether the
//! caller wants it elevated.

use vstd::prelude::*;

use super::elevate::{
    current_process_is_privileged, decide_elevation, elevation_helper, elevation_prefix,
    elevation_switch, needs_elevation,
};
use super::types::ExecError;

verus! {

/// A command to be executed, provided in `command-keywords-flags` form.
/// For example, `[brew install]-[curl fish]-[--dry-run]`.
#[derive(Debug, PartialEq, Eq)]
pub struct Cmd {
    /// Whether the caller wants the command to run with elevated privileges.
    pub sudo: bool,
    /// The program followed by its fixed subcommand words.
    pub cmd: Vec<String>,
    /// Positional arguments, such as package names.
    pub kws: Vec<String>,
    /// Option and switch arguments.
    pub flags: Vec<String>,
}

/// The mathematical content of a [`Cmd`]: each word is a sequence of
/// characters.
pub struct CmdView {
    pub sudo: bool,
    pub cmd: Seq<Seq<char>>,
    pub kws: Seq<Seq<char>>,
    pub flags: Seq<Seq<char>>,
}

impl View for Cmd {
    type V = CmdView;

    open spec fn view(&self) -> CmdView {
        CmdView {
            sudo: self.sudo,
            cmd: self.cmd.deep_view(),
            kws: self.kws.deep_view(),
            flags: self.flags.deep_view(),
        }
    }
}

/// Copies a list of borrowed words into owned strings, word for word.
pub fn owned_words(words: &[&str]) -> (owned: Vec<String>)
    ensures
        owned.deep_view() == words.deep_view(),
{
    let mut owned: Vec<String> = Vec::new();
    let mut i: usize = 0;
    while i < words.len()
        invariant
            i <= words.len(),
            owned.len() == i,
            forall|j: int| 0 <= j < i ==> owned[j]@ == words[j]@,
        decreases words.len() - i,
    {
        owned.push(words[i].to_owned());
        i += 1;
    }
    assert(owned.deep_view() =~= words.deep_view());
    owned
}

/// Copies a list of owned words, word for word.
pub fn cloned_words(words: &Vec<String>) -> (copy: Vec<String>)
    ensures
        copy.deep_view() == words.deep_view(),
{
    let mut copy: Vec<String> = Vec::new();
    let mut i: usize = 0;
    while i < words.len()
        invariant
            i <= words.len(),
            copy.len() == i,
            forall|j: int| 0 <= j < i ==> copy[j]@ == words[j]@,
        decreases words.len() - i,
    {
        copy.push(words[i].clone());
        i += 1;
    }
    assert(copy.deep_view() =~= words.deep_view());
    copy
}

impl Default for Cmd {
    fn default() -> (c: Self)
        ensures
            c@ == (CmdView {
                sudo: false,
                cmd: Seq::empty(),
                kws: Seq::empty(),
                flags: Seq::empty(),
            }),
    {
        let c = Cmd { sudo: false, cmd: Vec::new(), kws: Vec::new(), flags: Vec::new() };
        assert(c.cmd.deep_view() =~= Seq::empty());
        assert(c.kws.deep_view() =~= Seq::empty());
        assert(c.flags.deep_view() =~= Seq::empty());
        c
    }
}

impl Clone for Cmd {
    fn clone(&self) -> (c: Self)
        ensures
            c@ == self@,
    {
        Cmd {
            sudo: self.sudo,
            cmd: cloned_words(&self.cmd),
            kws: cloned_words(&self.kws),
            flags: cloned_words(&self.flags),
        }
    }
}

impl Cmd {
    /// A command made of the program and subcommand words `cmd`, without
    /// keywords or flags, that does not ask for elevation.
    pub fn new(cmd: &[&str]) -> (c: Self)
        ensures
            c@ == (CmdView {
                sudo: false,
                cmd: cmd.deep_view(),
                kws: Seq::empty(),
                flags: Seq::empty(),
            }),
    {
        let c = Cmd { sudo: false, cmd: owned_words(cmd), kws: Vec::new(), flags: Vec::new() };
        assert(c.kws.deep_view() =~= Seq::empty());
        assert(c.flags.deep_view() =~= Seq::empty());
        c
    }

    /// Like [`Cmd::new`], but asks for elevation.
    pub fn new_sudo(cmd: &[&str]) -> (c: Self)
        ensures
            c@ == (CmdView {
                sudo: true,
                cmd: cmd.deep_view(),
                kws: Seq::empty(),
                flags: Seq::empty(),
            }),
    {
        Self::new(cmd).sudo(true)
    }

    /// Replaces the keywords.
    pub fn kws(self, kws: &[&str]) -> (c: Self)
        ensures
            c@ == (CmdView { kws: kws.deep_view(), ..self@ }),
    {
        let mut c = self;
        c.kws = owned_words(kws);
        c
    }

    /// Replaces the flags.
    pub fn flags(self, flags: &[&str]) -> (c: Self)
        ensures
            c@ == (CmdView { flags: flags.deep_view(), ..self@ }),
    {
        let mut c = self;
        c.flags = owned_words(flags);
        c
    }

    /// Sets whether elevation is asked for.
    pub fn sudo(self, sudo: bool) -> (c: Self)
        ensures
            c@ == (CmdView { sudo: sudo, ..self@ }),
    {
        let mut c = self;
        c.sudo = sudo;
        c
    }
}

/// What is handed to the operating system to start a process: the program
/// and its arguments.
#[derive(Debug, PartialEq, Eq)]
pub struct SpawnSpec {
    /// The executable to launch.
    pub program: String,
    /// Its arguments, in order.
    pub args: Vec<String>,
}

/// The mathematical content of a [`SpawnSpec`].
pub struct SpawnSpecView {
    pub program: Seq<char>,
    pub args: Seq<Seq<char>>,
}

impl View for SpawnSpec {
    type V = SpawnSpecView;

    open spec fn view(&self) -> SpawnSpecView {
        SpawnSpecView { program: self.program@, args: self.args.deep_view() }
    }
}

impl Clone for SpawnSpec {
    fn clone(&self) -> (s: Self)
        ensures
            s@ == self@,
    {
        SpawnSpec { program: self.program.clone(), args: cloned_words(&self.args) }
    }
}

/// The spawn specification of a command with at least one program word.
///
/// With elevation the helper is the program and the whole command follows
/// its switch.  Either way the flags come before the keywords: some programs
/// reject a flag that follows a positional argument.
pub open spec fn spawn_spec(c: CmdView, privileged: bool) -> SpawnSpecView
    recommends
        c.cmd.len() > 0,
{
    if needs_elevation(c.sudo, privileged) {
        SpawnSpecView {
            program: elevation_helper(),
            args: seq![elevation_switch()] + c.cmd + c.flags + c.kws,
        }
    } else {
        SpawnSpecView { program: c.cmd[0], args: c.cmd.skip(1) + c.flags + c.kws }
    }
}

/// Words joined by single spaces.
pub open spec fn join_words(words: Seq<Seq<char>>) -> Seq<char>
    decreases words.len(),
{
    if words.len() == 0 {
        Seq::empty()
    } else if words.len() == 1 {
        words[0]
    } else {
        join_words(words.drop_last()) + seq![' '] + words.last()
    }
}

/// The words of a command in the order in which they are shown: program
/// words, keywords, flags.
pub open spec fn shown_words(c: CmdView) -> Seq<Seq<char>> {
    c.cmd + c.kws + c.flags
}

/// The human-readable command line: the shown words joined by spaces, after
/// the elevation prefix where elevation is applied.
pub open spec fn command_line(c: CmdView, privileged: bool) -> Seq<char> {
    if needs_elevation(c.sudo, privileged) {
        elevation_prefix() + join_words(shown_words(c))
    } else {
        join_words(shown_words(c))
    }
}

/// Appends copies of the words of `more` to `words`.
pub fn append_words(words: &mut Vec<String>, more: &Vec<String>)
    ensures
        final(words).deep_view() == old(words).deep_view() + more.deep_view(),
{
    let ghost before = words.deep_view();
    let mut i: usize = 0;
    while i < more.len()
        invariant
            i <= more.len(),
            words.deep_view() == before + more.deep_view().take(i as int),
        decreases more.len() - i,
    {
        let ghost prev = words.deep_view();
        words.push(more[i].clone());
        proof {
            assert(words.deep_view() =~= prev.push(more[i as int]@));
            assert(more.deep_view().take(i + 1) =~= more.deep_view().take(i as int).push(
                more[i as int]@,
            ));
        }
        i += 1;
    }
    assert(more.deep_view().take(more.len() as int) =~= more.deep_view());
}

/// Joins words by single spaces.
pub fn join_by_space(words: &Vec<String>) -> (line: String)
    ensures
        line@ == join_words(words.deep_view()),
{
    let mut line = String::new();
    let mut i: usize = 0;
    while i < words.len()
        invariant
            i <= words.len(),
            line@ == join_words(words.deep_view().take(i as int)),
        decreases words.len() - i,
    {
        let ghost sofar = words.deep_view().take(i as int);
        let ghost next = words.deep_view().take(i + 1);
        proof {
            assert(next.drop_last() =~= sofar);
            assert(next.last() == words[i as int]@);
        }
        if i > 0 {
            line.append(" ");
            proof {
                reveal_strlit(" ");
                assert(" "@ =~= seq![' ']);
            }
        }
        line.append(words[i].as_str());
        proof {
            if i == 0 {
                assert(line@ =~= words[0]@);
            }
        }
        i += 1;
    }
    assert(words.deep_view().take(words.len() as int) =~= words.deep_view());
    line
}

impl Cmd {
    /// Whether this command is to be wrapped with the elevation helper, for
    /// a process that is privileged or not as `privileged` says.
    pub fn needs_sudo_as(&self, privileged: bool) -> (elevate: bool)
        ensures
            elevate == needs_elevation(self@.sudo, privileged),
    {
        decide_elevation(self.sudo, privileged)
    }

    /// Determine if this command needs to run with `sudo -S`, asking the
    /// operating system whether the current process is privileged.  A command
    /// that does not ask for elevation never needs it.
    pub fn needs_sudo(&self) -> (elevate: bool)
        ensures
            elevate ==> self@.sudo,
    {
        self.needs_sudo_as(current_process_is_privileged())
    }

    /// Turns the command into a spawn specification, for a process that is
    /// privileged or not as `privileged` says.  A command without a program
    /// word is refused.
    pub fn build_as(self, privileged: bool) -> (built: Result<SpawnSpec, ExecError>)
        ensures
            match built {
                Ok(s) => self@.cmd.len() > 0 && s@ == spawn_spec(self@, privileged),
                Err(e) => self@.cmd.len() == 0 && e == ExecError::InvalidCommand,
            },
    {
        if self.cmd.len() == 0 {
            return Err(ExecError::InvalidCommand);
        }
        if self.needs_sudo_as(privileged) {
            let mut args: Vec<String> = Vec::new();
            args.push("-S".to_owned());
            assert(args.deep_view() =~= seq![elevation_switch()]);
            append_words(&mut args, &self.cmd);
            append_words(&mut args, &self.flags);
            append_words(&mut args, &self.kws);
            Ok(SpawnSpec { program: "sudo".to_owned(), args })
        } else {
            let program = self.cmd[0].clone();
            let mut args: Vec<String> = Vec::new();
            let mut i: usize = 1;
            while i < self.cmd.len()
                invariant
                    1 <= i <= self.cmd.len(),
                    args.deep_view() == self.cmd.deep_view().subrange(1, i as int),
                decreases self.cmd.len() - i,
            {
                let ghost prev = args.deep_view();
                args.push(self.cmd[i].clone());
                proof {
                    assert(args.deep_view() =~= prev.push(self.cmd[i as int]@));
                    assert(self.cmd.deep_view().subrange(1, i + 1) =~= self.cmd.deep_view().subrange(
                        1,
                        i as int,
                    ).push(self.cmd[i as int]@));
                }
                i += 1;
            }
            assert(self.cmd.deep_view().subrange(1, self.cmd.len() as int) =~= self@.cmd.skip(1));
            append_words(&mut args, &self.flags);
            append_words(&mut args, &self.kws);
            Ok(SpawnSpec { program, args })
        }
    }

    /// Convert a `Cmd` object into a spawn specification, asking the operating
    /// system whether the current process is privileged.
    pub fn build(self) -> (built: Result<SpawnSpec, ExecError>)
        ensures
            match built {
                Ok(s) => self@.cmd.len() > 0 && (s@ == spawn_spec(self@, true) || s@ == spawn_spec(
                    self@,
                    false,
                )),
                Err(e) => self@.cmd.len() == 0 && e == ExecError::InvalidCommand,
            },
    {
        let privileged = current_process_is_privileged();
        self.build_as(privileged)
    }

    /// Renders the command line, for a process that is privileged or not as
    /// `privileged` says.
    pub fn to_string_as(&self, privileged: bool) -> (line: String)
        ensures
            line@ == command_line(self@, privileged),
    {
        let mut words: Vec<String> = Vec::new();
        assert(words.deep_view() =~= Seq::empty());
        append_words(&mut words, &self.cmd);
        append_words(&mut words, &self.kws);
        append_words(&mut words, &self.flags);
        assert(words.deep_view() =~= shown_words(self@));
        let joined = join_by_space(&words);
        if self.needs_sudo_as(privileged) {
            let mut line = "sudo -S ".to_owned();
            line.append(joined.as_str());
            line
        } else {
            joined
        }
    }

    /// Renders the command line, asking the operating system whether the
    /// current process is privileged.  A command that does not ask for
    /// elevation is rendered as its words alone.
    pub fn to_string(&self) -> (line: String)
        ensures
            line@ == command_line(self@, true) || line@ == command_line(self@, false),
            !self@.sudo ==> line@ == join_words(shown_words(self@)),
    {
        let privileged = current_process_is_privileged();
        self.to_string_as(privileged)
    }
}

/// Whether `part` occurs somewhere in `text`.
pub open spec fn occurs_in(part: Seq<char>, text: Seq<char>) -> bool {
    exists|i: int|
        0 <= i && i + part.len() <= text.len() && #[trigger] text.subrange(i, i + part.len())
            == part
}

/// A command that does not ask for elevation is rendered as its words alone
/// and spawned as its own program, whoever runs it.
pub proof fn lemma_unasked_is_plain(c: CmdView, privileged: bool)
    requires
        !c.sudo,
    ensures
        command_line(c, privileged) == join_words(shown_words(c)),
        spawn_spec(c, privileged) == (SpawnSpecView {
            program: c.cmd[0],
            args: c.cmd.skip(1) + c.flags + c.kws,
        }),
{
}

/// The rendered line of a command that does not ask for elevation does not
/// contain the elevation prefix, unless the words of the command spell it
/// out themselves.
pub proof fn lemma_unasked_shows_no_prefix(c: CmdView, privileged: bool)
    requires
        !c.sudo,
        !occurs_in(elevation_prefix(), join_words(shown_words(c))),
    ensures
        !occurs_in(elevation_prefix(), command_line(c, privileged)),
{
}

/// In a process that is privileged already, a command is rendered as its
/// words alone and spawned as its own program, whether or not it asks for
/// elevation: it is never escalated a second time.
pub proof fn lemma_privileged_is_plain(c: CmdView)
    ensures
        !needs_elevation(c.sudo, true),
        command_line(c, true) == join_words(shown_words(c)),
        spawn_spec(c, true) == (SpawnSpecView {
            program: c.cmd[0],
            args: c.cmd.skip(1) + c.flags + c.kws,
        }),
{
}

/// With elevation, the rendered line is the prefix followed by the line
/// without elevation, and the helper is spawned with its switch, then the
/// whole command with the flags before the keywords.
pub proof fn lemma_elevated_is_wrapped(c: CmdView)
    requires
        c.sudo,
    ensures
        command_line(c, false) == elevation_prefix() + command_line(c, true),
        spawn_spec(c, false).program == elevation_helper(),
        spawn_spec(c, false).args == seq![elevation_switch()] + c.cmd + c.flags + c.kws,
{
}

} // verus!
