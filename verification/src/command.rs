//! The description of a process to be started on a pseudo-terminal, and the decisions taken
//! when it is started.

use vstd::prelude::*;

use crate::env::{apply_changes, changes, lemma_apply_appended, EnvChange, EnvEdit, Environment};
use crate::error::SpawnError;
use crate::pre_exec::{
    leads_session_first, lemma_session_setup_is_ordered, pre_exec_procedure, session_setup,
    takes_only_terminal, PreExecAction,
};
use crate::process::{
    all_nul_free, command_arg, command_args, command_current_dir, command_dir, command_env,
    command_env_clear, command_env_remove, command_env_set, command_new, command_program,
    nul_free,
};
use crate::stream::{resolve, resolved, Stream, StreamSource};

verus! {

/// A process to be started on a pseudo-terminal: the program, its arguments, the edits to its
/// environment, its working directory, and for each standard stream what the caller chose in
/// place of the terminal, if anything.
///
/// `S` is whatever the caller hands over as a stream of its own; the library carries such a
/// value through and never looks inside.
#[derive(Debug)]
pub struct PtyCommand<S> {
    program: String,
    args: Vec<String>,
    env_edits: Vec<EnvEdit>,
    cwd: Option<String>,
    stdin: Option<S>,
    stdout: Option<S>,
    stderr: Option<S>,
}

/// The mathematical content of a [`PtyCommand`].
pub struct CommandView<S> {
    pub program: Seq<char>,
    pub args: Seq<Seq<char>>,
    pub env_edits: Seq<EnvChange>,
    pub cwd: Option<Seq<char>>,
    pub stdin: Option<S>,
    pub stdout: Option<S>,
    pub stderr: Option<S>,
}

/// The contents of a list of strings.
pub open spec fn texts(items: Seq<&str>) -> Seq<Seq<char>> {
    Seq::new(items.len(), |i: int| items[i]@)
}

/// One assignment for each pair of a name and a value, in the same order.
pub open spec fn assignments(vars: Seq<(&str, &str)>) -> Seq<EnvChange> {
    Seq::new(vars.len(), |i: int| EnvChange::Assign(vars[i].0@, vars[i].1@))
}

/// Whether a descriptor for the slave side of the pseudo-terminal was obtained.
pub open spec fn slave_available(slave: Option<i32>) -> bool {
    slave matches Some(fd) && fd >= 0
}

impl<S> CommandView<S> {
    /// The description of `program` before anything else is said of it.
    pub open spec fn fresh(program: Seq<char>) -> Self {
        CommandView {
            program,
            args: Seq::empty(),
            env_edits: Seq::empty(),
            cwd: None,
            stdin: None,
            stdout: None,
            stderr: None,
        }
    }

    /// The same description with these arguments behind the ones it has.
    pub open spec fn with_args(self, more: Seq<Seq<char>>) -> Self {
        CommandView { args: self.args + more, ..self }
    }

    /// The same description with these edits behind the ones it has.
    pub open spec fn with_edits(self, more: Seq<EnvChange>) -> Self {
        CommandView { env_edits: self.env_edits + more, ..self }
    }

    /// The same description with `dir` as the working directory.
    pub open spec fn with_cwd(self, dir: Seq<char>) -> Self {
        CommandView { cwd: Some(dir), ..self }
    }

    /// The same description with `choice` in the slot of `stream`.
    pub open spec fn with_override(self, stream: Stream, choice: Option<S>) -> Self {
        match stream {
            Stream::Stdin => CommandView { stdin: choice, ..self },
            Stream::Stdout => CommandView { stdout: choice, ..self },
            Stream::Stderr => CommandView { stderr: choice, ..self },
        }
    }

    /// What the caller chose for `stream`.
    pub open spec fn override_of(self, stream: Stream) -> Option<S> {
        match stream {
            Stream::Stdin => self.stdin,
            Stream::Stdout => self.stdout,
            Stream::Stderr => self.stderr,
        }
    }

    /// Whether the working directory, if one was set, can be handed to the operating system.
    pub open spec fn cwd_nul_free(self) -> bool {
        self.cwd matches Some(dir) ==> nul_free(dir)
    }

    /// Whether the program, every argument and the working directory can be handed to the
    /// operating system: none of them holds a NUL character. A description that is not
    /// well formed is accepted all the same, and process creation then fails.
    pub open spec fn well_formed(self) -> bool {
        &&& nul_free(self.program)
        &&& all_nul_free(self.args)
        &&& self.cwd_nul_free()
    }

    /// The same description with every stream back at the terminal.
    pub open spec fn without_overrides(self) -> Self {
        CommandView { stdin: None, stdout: None, stderr: None, ..self }
    }
}

impl<S> View for PtyCommand<S> {
    type V = CommandView<S>;

    closed spec fn view(&self) -> CommandView<S> {
        CommandView {
            program: self.program@,
            args: self.args.deep_view(),
            env_edits: changes(self.env_edits@),
            cwd: match self.cwd {
                Some(dir) => Some(dir@),
                None => None,
            },
            stdin: self.stdin,
            stdout: self.stdout,
            stderr: self.stderr,
        }
    }
}

/// Everything that process creation needs to start the child on the pseudo-terminal.
#[derive(Debug)]
pub struct Launch<S> {
    /// The builder of the process, with program, arguments, environment and working
    /// directory filled in. Streams and the pre-exec procedure are still to be attached.
    pub command: async_process::Command,
    /// What the child reads from.
    pub stdin: StreamSource<S>,
    /// What the child writes to.
    pub stdout: StreamSource<S>,
    /// What the child reports errors to.
    pub stderr: StreamSource<S>,
    /// The steps that the child takes, in this order, before it loads the program. If one
    /// fails the child ends there and process creation reports the failure.
    pub pre_exec: Vec<PreExecAction>,
}

/// The mathematical content of a [`Launch`], but for the child's environment.
pub struct LaunchView<S> {
    pub program: Seq<char>,
    pub args: Seq<Seq<char>>,
    pub cwd: Option<Seq<char>>,
    pub stdin: StreamSource<S>,
    pub stdout: StreamSource<S>,
    pub stderr: StreamSource<S>,
    pub pre_exec: Seq<PreExecAction>,
}

impl<S> LaunchView<S> {
    /// What `stream` of the child is connected to.
    pub open spec fn source_of(self, stream: Stream) -> StreamSource<S> {
        match stream {
            Stream::Stdin => self.stdin,
            Stream::Stdout => self.stdout,
            Stream::Stderr => self.stderr,
        }
    }
}

impl<S> View for Launch<S> {
    type V = LaunchView<S>;

    open spec fn view(&self) -> LaunchView<S> {
        LaunchView {
            program: command_program(self.command),
            args: command_args(self.command),
            cwd: command_dir(self.command),
            stdin: self.stdin,
            stdout: self.stdout,
            stderr: self.stderr,
            pre_exec: self.pre_exec@,
        }
    }
}

impl<S> Launch<S> {
    /// The variables that the child receives when the parent holds `inherited`.
    pub open spec fn child_env(&self, inherited: Environment) -> Environment {
        command_env(self.command, inherited)
    }
}

/// How the process described by `command` is started on the terminal behind `slave`: each
/// stream is the caller's choice where there is one and the terminal where there is none,
/// and the child leads a new session with that terminal as its controlling terminal,
/// whatever was chosen for the streams.
pub open spec fn planned<S>(command: CommandView<S>, slave: i32) -> LaunchView<S> {
    LaunchView {
        program: command.program,
        args: command.args,
        cwd: command.cwd,
        stdin: resolved(command.stdin),
        stdout: resolved(command.stdout),
        stderr: resolved(command.stderr),
        pre_exec: session_setup(slave),
    }
}

impl<S> PtyCommand<S> {
    /// Describes a process that runs `program` with no arguments, in the caller's directory
    /// and environment, with all three streams on the terminal.
    pub fn new(program: &str) -> (command: Self)
        ensures
            command@ == CommandView::<S>::fresh(program@),
    {
        let command = PtyCommand {
            program: program.to_owned(),
            args: Vec::new(),
            env_edits: Vec::new(),
            cwd: None,
            stdin: None,
            stdout: None,
            stderr: None,
        };
        assert(command.args.deep_view() =~= Seq::<Seq<char>>::empty());
        assert(changes(command.env_edits@) =~= Seq::<EnvChange>::empty());
        command
    }

    /// Adds one argument behind those already given.
    pub fn arg(&mut self, arg: &str) -> (this: &mut Self)
        ensures
            this@ == old(self)@.with_args(seq![arg@]),
            *final(self) == *final(this),
    {
        self.args.push(arg.to_owned());
        assert(self.args.deep_view() =~= old(self).args.deep_view() + seq![arg@]);
        self
    }

    /// Adds these arguments, in their order, behind those already given.
    pub fn args(&mut self, args: &[&str]) -> (this: &mut Self)
        ensures
            this@ == old(self)@.with_args(texts(args@)),
            *final(self) == *final(this),
    {
        let mut i: usize = 0;
        while i < args.len()
            invariant
                i <= args.len(),
                self@ == old(self)@.with_args(texts(args@.take(i as int))),
            decreases args.len() - i,
        {
            let ghost before = self.args.deep_view();
            self.args.push(args[i].to_owned());
            assert(self.args.deep_view() =~= before + seq![args[i as int]@]);
            assert(texts(args@.take(i + 1)) =~= texts(args@.take(i as int)) + seq![
                args[i as int]@,
            ]);
            assert(self.args.deep_view() =~= old(self)@.args + texts(args@.take(i + 1)));
            i = i + 1;
        }
        assert(args@.take(i as int) =~= args@);
        self
    }

    /// Records that the child gets `key` with the value `val`.
    pub fn env(&mut self, key: &str, val: &str) -> (this: &mut Self)
        ensures
            this@ == old(self)@.with_edits(seq![EnvChange::Assign(key@, val@)]),
            *final(self) == *final(this),
    {
        self.env_edits.push(EnvEdit::Assign(key.to_owned(), val.to_owned()));
        assert(changes(self.env_edits@) =~= changes(old(self).env_edits@) + seq![
            EnvChange::Assign(key@, val@),
        ]);
        self
    }

    /// Records, for each pair in its order, that the child gets the name with the value.
    pub fn envs(&mut self, vars: &[(&str, &str)]) -> (this: &mut Self)
        ensures
            this@ == old(self)@.with_edits(assignments(vars@)),
            *final(self) == *final(this),
    {
        let mut i: usize = 0;
        while i < vars.len()
            invariant
                i <= vars.len(),
                self@ == old(self)@.with_edits(assignments(vars@.take(i as int))),
            decreases vars.len() - i,
        {
            let ghost before = changes(self.env_edits@);
            let (key, val) = vars[i];
            self.env_edits.push(EnvEdit::Assign(key.to_owned(), val.to_owned()));
            assert(changes(self.env_edits@) =~= before + seq![EnvChange::Assign(key@, val@)]);
            assert(assignments(vars@.take(i + 1)) =~= assignments(vars@.take(i as int)) + seq![
                EnvChange::Assign(key@, val@),
            ]);
            assert(changes(self.env_edits@) =~= old(self)@.env_edits + assignments(
                vars@.take(i + 1),
            ));
            i = i + 1;
        }
        assert(vars@.take(i as int) =~= vars@);
        self
    }

    /// Records that the child does not get `key`, neither from an earlier edit nor from the
    /// parent.
    pub fn env_remove(&mut self, key: &str) -> (this: &mut Self)
        ensures
            this@ == old(self)@.with_edits(seq![EnvChange::Remove(key@)]),
            *final(self) == *final(this),
    {
        self.env_edits.push(EnvEdit::Remove(key.to_owned()));
        assert(changes(self.env_edits@) =~= changes(old(self).env_edits@) + seq![
            EnvChange::Remove(key@),
        ]);
        self
    }

    /// Records that the child gets nothing of what was set so far or of what the parent
    /// holds. Edits recorded later still apply.
    pub fn env_clear(&mut self) -> (this: &mut Self)
        ensures
            this@ == old(self)@.with_edits(seq![EnvChange::ClearAll]),
            *final(self) == *final(this),
    {
        self.env_edits.push(EnvEdit::ClearAll);
        assert(changes(self.env_edits@) =~= changes(old(self).env_edits@) + seq![
            EnvChange::ClearAll,
        ]);
        self
    }

    /// Sets the directory in which the child starts.
    pub fn current_dir(&mut self, dir: &str) -> (this: &mut Self)
        ensures
            this@ == old(self)@.with_cwd(dir@),
            *final(self) == *final(this),
    {
        self.cwd = Some(dir.to_owned());
        self
    }

    /// Chooses what the child reads from: with `Some`, that source as it is; with `None`,
    /// the terminal.
    pub fn stdin(&mut self, cfg: Option<S>) -> (this: &mut Self)
        ensures
            this@ == old(self)@.with_override(Stream::Stdin, cfg),
            *final(self) == *final(this),
    {
        self.stdin = cfg;
        self
    }

    /// Chooses what the child writes to: with `Some`, that source as it is; with `None`,
    /// the terminal.
    pub fn stdout(&mut self, cfg: Option<S>) -> (this: &mut Self)
        ensures
            this@ == old(self)@.with_override(Stream::Stdout, cfg),
            *final(self) == *final(this),
    {
        self.stdout = cfg;
        self
    }

    /// Chooses what the child reports errors to: with `Some`, that source as it is; with
    /// `None`, the terminal.
    pub fn stderr(&mut self, cfg: Option<S>) -> (this: &mut Self)
        ensures
            this@ == old(self)@.with_override(Stream::Stderr, cfg),
            *final(self) == *final(this),
    {
        self.stderr = cfg;
        self
    }

    /// Fills a process builder with the program, the arguments, the working directory and
    /// the environment edits of this description, each list in its order. What the builder
    /// then holds is known for each part that is free of NUL characters.
    fn build(&self) -> (command: async_process::Command)
        ensures
            nul_free(self@.program) ==> command_program(command) == self@.program,
            all_nul_free(self@.args) ==> command_args(command) == self@.args,
            self@.cwd_nul_free() ==> command_dir(command) == self@.cwd,
            forall|inherited: Environment| #[trigger]
                command_env(command, inherited) == apply_changes(inherited, self@.env_edits),
    {
        let mut command = command_new(self.program.as_str());
        let ghost args = self.args.deep_view();
        let mut i: usize = 0;
        while i < self.args.len()
            invariant
                i <= self.args.len(),
                args == self.args.deep_view(),
                nul_free(self.program@) ==> command_program(command) == self.program@,
                all_nul_free(args.take(i as int)) ==> command_args(command) == args.take(i as int),
                command_dir(command) == None::<Seq<char>>,
                forall|inherited: Environment| #[trigger]
                    command_env(command, inherited) == inherited,
            decreases self.args.len() - i,
        {
            command_arg(&mut command, self.args[i].as_str());
            assert(args.take(i + 1) =~= args.take(i as int).push(self.args[i as int]@));
            assert(all_nul_free(args.take(i + 1)) ==> all_nul_free(args.take(i as int))
                && nul_free(self.args[i as int]@)) by {
                if all_nul_free(args.take(i + 1)) {
                    assert(args.take(i + 1)[i as int] == self.args[i as int]@);
                    assert forall|k: int| 0 <= k < i implies nul_free(
                        #[trigger] args.take(i as int)[k],
                    ) by {
                        assert(args.take(i + 1)[k] == args.take(i as int)[k]);
                    }
                }
            }
            i = i + 1;
        }
        assert(args.take(i as int) =~= args);
        let ghost edits = changes(self.env_edits@);
        let mut j: usize = 0;
        while j < self.env_edits.len()
            invariant
                j <= self.env_edits.len(),
                edits == changes(self.env_edits@),
                nul_free(self.program@) ==> command_program(command) == self.program@,
                all_nul_free(args) ==> command_args(command) == args,
                command_dir(command) == None::<Seq<char>>,
                forall|inherited: Environment| #[trigger]
                    command_env(command, inherited) == apply_changes(
                        inherited,
                        edits.take(j as int),
                    ),
            decreases self.env_edits.len() - j,
        {
            match &self.env_edits[j] {
                EnvEdit::Assign(key, val) => {
                    command_env_set(&mut command, key.as_str(), val.as_str());
                },
                EnvEdit::Remove(key) => {
                    command_env_remove(&mut command, key.as_str());
                },
                EnvEdit::ClearAll => {
                    command_env_clear(&mut command);
                },
            }
            assert(edits.take(j + 1) =~= edits.take(j as int).push(edits[j as int]));
            assert forall|inherited: Environment| #[trigger]
                command_env(command, inherited) == apply_changes(
                    inherited,
                    edits.take(j + 1),
                ) by {
                lemma_apply_appended(inherited, edits.take(j as int), edits[j as int]);
            }
            j = j + 1;
        }
        assert(edits.take(j as int) =~= edits);
        match &self.cwd {
            Some(dir) => {
                command_current_dir(&mut command, dir.as_str());
            },
            None => {},
        }
        command
    }

    /// Decides how the child is started, once the pseudo-terminal was asked for a descriptor
    /// of its slave side and answered `slave`.
    ///
    /// Without a descriptor (`None`, or a negative number, which is how the operating system
    /// says that it has none) the answer is `PtyUnavailable`, and the description is left
    /// as it was. With one, the answer holds what process creation is to be given: the
    /// filled-in builder, the source of each stream and the child's pre-exec procedure. The
    /// caller's stream choices move into the answer, so that afterwards the description is
    /// back at the terminal for all three.
    ///
    /// A program, an argument or a directory with a NUL character in it is not rejected
    /// here: process creation fails on it. Of such a part this function does not say what
    /// the builder holds.
    pub fn spawn(&mut self, slave: Option<i32>) -> (outcome: Result<Launch<S>, SpawnError>)
        ensures
            outcome is Ok <==> slave_available(slave),
            outcome matches Err(error) ==> error is PtyUnavailable && final(self)@ == old(self)@,
            outcome matches Ok(launch) ==> {
                &&& launch@.stdin == resolved(old(self)@.stdin)
                &&& launch@.stdout == resolved(old(self)@.stdout)
                &&& launch@.stderr == resolved(old(self)@.stderr)
                &&& launch@.pre_exec == session_setup(slave.unwrap())
                &&& nul_free(old(self)@.program) ==> launch@.program == old(self)@.program
                &&& all_nul_free(old(self)@.args) ==> launch@.args == old(self)@.args
                &&& old(self)@.cwd_nul_free() ==> launch@.cwd == old(self)@.cwd
                &&& old(self)@.well_formed() ==> launch@ == planned(old(self)@, slave.unwrap())
                &&& forall|inherited: Environment| #[trigger]
                    launch.child_env(inherited) == apply_changes(
                        inherited,
                        old(self)@.env_edits,
                    )
                &&& final(self)@ == old(self)@.without_overrides()
            },
    {
        let fd = match slave {
            Some(fd) => fd,
            None => {
                return Err(SpawnError::PtyUnavailable);
            },
        };
        if fd < 0 {
            return Err(SpawnError::PtyUnavailable);
        }
        let command = self.build();
        let stdin = resolve(self.stdin.take());
        let stdout = resolve(self.stdout.take());
        let stderr = resolve(self.stderr.take());
        let pre_exec = pre_exec_procedure(fd);
        Ok(Launch { command, stdin, stdout, stderr, pre_exec })
    }

    /// The path of the program.
    pub fn get_program(&self) -> (program: &str)
        ensures
            program@ == self@.program,
    {
        self.program.as_str()
    }

    /// The arguments given so far, in their order.
    pub fn get_args(&self) -> (args: &Vec<String>)
        ensures
            args.deep_view() == self@.args,
    {
        &self.args
    }

    /// The environment edits recorded so far, in their order.
    pub fn get_env_edits(&self) -> (edits: &Vec<EnvEdit>)
        ensures
            changes(edits@) == self@.env_edits,
    {
        &self.env_edits
    }

    /// The directory in which the child starts, if one was set.
    pub fn get_current_dir(&self) -> (dir: Option<&str>)
        ensures
            dir is Some <==> self@.cwd is Some,
            dir matches Some(path) ==> Some(path@) == self@.cwd,
    {
        match &self.cwd {
            Some(dir) => Some(dir.as_str()),
            None => None,
        }
    }
}

/// Each stream of the child comes from the caller's choice for that stream alone: the choice
/// itself where there is one, the terminal where there is none.
pub proof fn lemma_each_stream_follows_its_override<S>(
    command: CommandView<S>,
    slave: i32,
    stream: Stream,
)
    ensures
        planned(command, slave).source_of(stream) == resolved(command.override_of(stream)),
{
}

/// With no stream overridden, all three streams of the child are the one terminal.
pub proof fn lemma_defaults_share_the_terminal<S>(command: CommandView<S>, slave: i32)
    requires
        forall|stream: Stream| command.override_of(stream) is None,
    ensures
        forall|stream: Stream|
            #[trigger] planned(command, slave).source_of(stream) == StreamSource::<S>::PtySlave,
{
    assert forall|stream: Stream|
        #[trigger] planned(command, slave).source_of(stream) == StreamSource::<
            S,
        >::PtySlave by {
        assert(command.override_of(stream) is None);
    }
}

/// With exactly one stream overridden, that stream is the caller's source and not the
/// terminal, and the other two are the terminal.
pub proof fn lemma_one_override_leaves_the_others<S>(
    command: CommandView<S>,
    slave: i32,
    stream: Stream,
    source: S,
)
    requires
        command.override_of(stream) == Some(source),
        forall|other: Stream| other != stream ==> command.override_of(other) is None,
    ensures
        planned(command, slave).source_of(stream) == StreamSource::Explicit(source),
        planned(command, slave).source_of(stream) != StreamSource::<S>::PtySlave,
        forall|other: Stream|
            other != stream ==> #[trigger] planned(command, slave).source_of(other)
                == StreamSource::<S>::PtySlave,
{
    assert forall|other: Stream| other != stream implies #[trigger] planned(
        command,
        slave,
    ).source_of(other) == StreamSource::<S>::PtySlave by {
        assert(command.override_of(other) is None);
    }
}

/// Whatever was chosen for the streams, the child leads a new session before it takes a
/// controlling terminal, and the terminal it takes is the one behind the slave descriptor
/// that it was started on.
pub proof fn lemma_child_leads_session_on_the_slave<S>(command: CommandView<S>, slave: i32)
    ensures
        planned(command, slave).pre_exec == session_setup(slave),
        leads_session_first(planned(command, slave).pre_exec),
        takes_only_terminal(planned(command, slave).pre_exec, slave),
        planned(command, slave).pre_exec.contains(PreExecAction::SetControllingTerminal(slave)),
{
    lemma_session_setup_is_ordered(slave);
}

} // verus!
