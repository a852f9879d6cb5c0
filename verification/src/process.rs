//! The process builder of `async-process`, as far as this library fills it.
//!
//! Nothing in this file is proved: each contract restates what the builder's documentation
//! says of one of its methods, and the rest of the library is verified against them.
//!
//! The builder takes any string, but a program, an argument or a directory with a NUL
//! character in it cannot be handed to the operating system. The documentation does not say
//! what the builder holds in its place, so the contracts say what it holds only for strings
//! without one.

use vstd::prelude::*;

use crate::env::Environment;

verus! {

#[verifier::external_type_specification]
#[verifier::external_body]
pub struct ExCommand(async_process::Command);

#[verifier::external_type_specification]
#[verifier::external_body]
pub struct ExIoError(std::io::Error);

/// Whether a string is free of NUL characters.
pub open spec fn nul_free(text: Seq<char>) -> bool {
    !text.contains('\0')
}

/// Whether every string of a list is free of NUL characters.
pub open spec fn all_nul_free(texts: Seq<Seq<char>>) -> bool {
    forall|i: int| 0 <= i < texts.len() ==> nul_free(#[trigger] texts[i])
}

/// The path of the program that the builder will launch.
pub uninterp spec fn command_program(command: async_process::Command) -> Seq<char>;

/// The arguments that the builder will pass to the program, in order, the program's own
/// path not among them.
pub uninterp spec fn command_args(command: async_process::Command) -> Seq<Seq<char>>;

/// The working directory that the builder will give the child: empty while the child is to
/// stay in the directory of the process that starts it, else the one path that was set last.
pub uninterp spec fn command_dir(command: async_process::Command) -> Option<Seq<char>>;

/// The variables that the builder will hand to the child when the process that starts it
/// holds the variables `inherited`.
pub uninterp spec fn command_env(command: async_process::Command, inherited: Environment) -> Environment;

/// `async_process::Command::new`: a builder with no arguments, which leaves the child in the
/// caller's working directory and hands it the caller's environment unchanged. Its program
/// is `program` where that holds no NUL character.
#[verifier::external_body]
pub(crate) fn command_new(program: &str) -> (command: async_process::Command)
    ensures
        nul_free(program@) ==> command_program(command) == program@,
        command_args(command) == Seq::<Seq<char>>::empty(),
        command_dir(command) == None::<Seq<char>>,
        forall|inherited: Environment| #[trigger]
            command_env(command, inherited) == inherited,
{
    async_process::Command::new(program)
}

/// `async_process::Command::arg`: adds `arg`, where it holds no NUL character, behind the
/// arguments already given, and touches nothing but the arguments.
#[verifier::external_body]
pub(crate) fn command_arg(command: &mut async_process::Command, arg: &str)
    ensures
        nul_free(arg@) ==> command_args(*final(command)) == command_args(*old(command)).push(
            arg@,
        ),
        command_program(*final(command)) == command_program(*old(command)),
        command_dir(*final(command)) == command_dir(*old(command)),
        forall|inherited: Environment| #[trigger]
            command_env(*final(command), inherited) == command_env(*old(command), inherited),
{
    command.arg(arg);
}

/// `async_process::Command::env`: the child gets `key` with `value`, in place of whatever it
/// would have got under that name; nothing else changes.
#[verifier::external_body]
pub(crate) fn command_env_set(command: &mut async_process::Command, key: &str, value: &str)
    ensures
        forall|inherited: Environment| #[trigger]
            command_env(*final(command), inherited) == command_env(
                *old(command),
                inherited,
            ).insert(key@, value@),
        command_program(*final(command)) == command_program(*old(command)),
        command_args(*final(command)) == command_args(*old(command)),
        command_dir(*final(command)) == command_dir(*old(command)),
{
    command.env(key, value);
}

/// `async_process::Command::env_remove`: the child does not get `key`, neither from an earlier
/// `env` nor from the caller's environment; nothing else changes.
#[verifier::external_body]
pub(crate) fn command_env_remove(command: &mut async_process::Command, key: &str)
    ensures
        forall|inherited: Environment| #[trigger]
            command_env(*final(command), inherited) == command_env(
                *old(command),
                inherited,
            ).remove(key@),
        command_program(*final(command)) == command_program(*old(command)),
        command_args(*final(command)) == command_args(*old(command)),
        command_dir(*final(command)) == command_dir(*old(command)),
{
    command.env_remove(key);
}

/// `async_process::Command::env_clear`: the child gets no variable at all, neither from an
/// earlier `env` nor from the caller's environment; nothing else changes.
#[verifier::external_body]
pub(crate) fn command_env_clear(command: &mut async_process::Command)
    ensures
        forall|inherited: Environment| #[trigger]
            command_env(*final(command), inherited) == Environment::empty(),
        command_program(*final(command)) == command_program(*old(command)),
        command_args(*final(command)) == command_args(*old(command)),
        command_dir(*final(command)) == command_dir(*old(command)),
{
    command.env_clear();
}

/// `async_process::Command::current_dir`: the child starts in `dir`, where that holds no NUL
/// character; nothing but the working directory changes.
#[verifier::external_body]
pub(crate) fn command_current_dir(command: &mut async_process::Command, dir: &str)
    ensures
        nul_free(dir@) ==> command_dir(*final(command)) == Some(dir@),
        command_program(*final(command)) == command_program(*old(command)),
        command_args(*final(command)) == command_args(*old(command)),
        forall|inherited: Environment| #[trigger]
            command_env(*final(command), inherited) == command_env(*old(command), inherited),
{
    command.current_dir(dir);
}

} // verus!
