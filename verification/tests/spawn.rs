use futures_lite::future::block_on;
use pty_spawn::{Child, Launch, PreExecAction, PtyCommand, SpawnError, StreamSource};

fn output_of(launch: &mut Launch<u8>) -> (String, Option<i32>) {
    let output = block_on(launch.command.output()).expect("the program runs");
    (String::from_utf8(output.stdout).expect("text"), output.status.code())
}

#[test]
fn no_override_puts_all_streams_on_the_terminal() {
    let mut command: PtyCommand<u8> = PtyCommand::new("/bin/echo");
    let launch = command.spawn(Some(7)).expect("a slave descriptor was given");
    assert_eq!(launch.stdin, StreamSource::PtySlave);
    assert_eq!(launch.stdout, StreamSource::PtySlave);
    assert_eq!(launch.stderr, StreamSource::PtySlave);
}

#[test]
fn overridden_stdin_is_not_the_terminal() {
    let mut command: PtyCommand<u8> = PtyCommand::new("/bin/cat");
    command.stdin(Some(11));
    let launch = command.spawn(Some(7)).unwrap();
    assert_eq!(launch.stdin, StreamSource::Explicit(11));
    assert_eq!(launch.stdout, StreamSource::PtySlave);
    assert_eq!(launch.stderr, StreamSource::PtySlave);
}

#[test]
fn overridden_stdout_is_not_the_terminal() {
    let mut command: PtyCommand<u8> = PtyCommand::new("/bin/cat");
    command.stdout(Some(12));
    let launch = command.spawn(Some(7)).unwrap();
    assert_eq!(launch.stdin, StreamSource::PtySlave);
    assert_eq!(launch.stdout, StreamSource::Explicit(12));
    assert_eq!(launch.stderr, StreamSource::PtySlave);
}

#[test]
fn overridden_stderr_is_not_the_terminal() {
    let mut command: PtyCommand<u8> = PtyCommand::new("/bin/cat");
    command.stderr(Some(13));
    let launch = command.spawn(Some(7)).unwrap();
    assert_eq!(launch.stdin, StreamSource::PtySlave);
    assert_eq!(launch.stdout, StreamSource::PtySlave);
    assert_eq!(launch.stderr, StreamSource::Explicit(13));
}

#[test]
fn all_three_overridden_are_used_as_given() {
    let mut command: PtyCommand<u8> = PtyCommand::new("/bin/cat");
    command.stdin(Some(1)).stdout(Some(2)).stderr(Some(3));
    let launch = command.spawn(Some(0)).unwrap();
    assert_eq!(launch.stdin, StreamSource::Explicit(1));
    assert_eq!(launch.stdout, StreamSource::Explicit(2));
    assert_eq!(launch.stderr, StreamSource::Explicit(3));
    assert_eq!(
        launch.pre_exec,
        vec![PreExecAction::MakeSessionLeader, PreExecAction::SetControllingTerminal(0)]
    );
}

#[test]
fn override_with_none_goes_back_to_the_terminal() {
    let mut command: PtyCommand<u8> = PtyCommand::new("/bin/cat");
    command.stdout(Some(12)).stdout(None);
    let launch = command.spawn(Some(7)).unwrap();
    assert_eq!(launch.stdout, StreamSource::PtySlave);
}

#[test]
fn spawn_takes_the_overrides_with_it() {
    let mut command: PtyCommand<u8> = PtyCommand::new("/bin/echo");
    command.arg("hello").stdout(Some(12));
    let first = command.spawn(Some(7)).unwrap();
    assert_eq!(first.stdout, StreamSource::Explicit(12));
    let second = command.spawn(Some(8)).unwrap();
    assert_eq!(second.stdout, StreamSource::PtySlave);
    assert_eq!(command.get_args(), &vec!["hello".to_string()]);
    assert_eq!(command.get_program(), "/bin/echo");
}

#[test]
fn child_leads_a_session_before_it_takes_the_slave() {
    let mut command: PtyCommand<u8> = PtyCommand::new("/bin/sh");
    let launch = command.spawn(Some(42)).unwrap();
    assert_eq!(
        launch.pre_exec,
        vec![PreExecAction::MakeSessionLeader, PreExecAction::SetControllingTerminal(42)]
    );
}

#[test]
fn closed_slave_is_pty_unavailable() {
    let mut command: PtyCommand<u8> = PtyCommand::new("/bin/echo");
    command.stdout(Some(12));
    assert!(matches!(command.spawn(None), Err(SpawnError::PtyUnavailable)));
    // Nothing was taken from the description: the override is still there.
    let launch = command.spawn(Some(7)).unwrap();
    assert_eq!(launch.stdout, StreamSource::Explicit(12));
}

#[test]
fn negative_descriptor_is_pty_unavailable() {
    let mut command: PtyCommand<u8> = PtyCommand::new("/bin/echo");
    assert!(matches!(command.spawn(Some(-1)), Err(SpawnError::PtyUnavailable)));
    assert!(matches!(command.spawn(Some(i32::MIN)), Err(SpawnError::PtyUnavailable)));
    assert!(command.spawn(Some(0)).is_ok());
    assert!(command.spawn(Some(i32::MAX)).is_ok());
}

#[test]
fn echo_hello_prints_hello_and_exits_with_zero() {
    let mut command: PtyCommand<u8> = PtyCommand::new("/bin/echo");
    command.args(&["hello"]);
    let mut launch = command.spawn(Some(7)).unwrap();
    assert_eq!(launch.stdin, StreamSource::PtySlave);
    assert_eq!(launch.stdout, StreamSource::PtySlave);
    assert_eq!(launch.stderr, StreamSource::PtySlave);
    assert_eq!(output_of(&mut launch), ("hello\n".to_string(), Some(0)));
}

#[test]
fn arguments_reach_the_program_in_order() {
    let mut command: PtyCommand<u8> = PtyCommand::new("/bin/echo");
    command.arg("one").args(&["two", "three"]).arg("four");
    let mut launch = command.spawn(Some(7)).unwrap();
    assert_eq!(output_of(&mut launch), ("one two three four\n".to_string(), Some(0)));
}

#[test]
fn set_clear_set_leaves_only_the_second_value() {
    let mut command: PtyCommand<u8> = PtyCommand::new("/usr/bin/env");
    command.env("A", "1").env_clear().env("A", "2");
    let mut launch = command.spawn(Some(7)).unwrap();
    assert_eq!(output_of(&mut launch), ("A=2\n".to_string(), Some(0)));
}

#[test]
fn clear_alone_leaves_no_variable() {
    let mut command: PtyCommand<u8> = PtyCommand::new("/usr/bin/env");
    command.env("A", "1").env_clear();
    let mut launch = command.spawn(Some(7)).unwrap();
    assert_eq!(output_of(&mut launch), (String::new(), Some(0)));
}

#[test]
fn set_then_remove_hides_the_variable() {
    let mut command: PtyCommand<u8> = PtyCommand::new("/usr/bin/env");
    command.env("PTY_SPAWN_PROBE", "1").env_remove("PTY_SPAWN_PROBE");
    let mut launch = command.spawn(Some(7)).unwrap();
    let (text, code) = output_of(&mut launch);
    assert_eq!(code, Some(0));
    assert!(!text.lines().any(|line| line.starts_with("PTY_SPAWN_PROBE=")));
}

#[test]
fn remove_hides_an_inherited_variable() {
    let mut plain: PtyCommand<u8> = PtyCommand::new("/usr/bin/env");
    let mut launch = plain.spawn(Some(7)).unwrap();
    let (inherited, _) = output_of(&mut launch);
    let name = inherited
        .lines()
        .filter_map(|line| line.split_once('='))
        .map(|(name, _)| name.to_string())
        .next()
        .expect("the test process has a variable");

    let mut command: PtyCommand<u8> = PtyCommand::new("/usr/bin/env");
    command.env(&name, "1").env_remove(&name);
    let mut launch = command.spawn(Some(7)).unwrap();
    let (text, code) = output_of(&mut launch);
    assert_eq!(code, Some(0));
    let prefix = format!("{}=", name);
    assert!(!text.lines().any(|line| line.starts_with(&prefix)));
    assert_eq!(text.lines().count() + 1, inherited.lines().count());
}

#[test]
fn last_write_wins() {
    let mut command: PtyCommand<u8> = PtyCommand::new("/usr/bin/env");
    command.env_clear().env("A", "1").envs(&[("B", "x"), ("A", "2")]);
    let mut launch = command.spawn(Some(7)).unwrap();
    let (text, code) = output_of(&mut launch);
    assert_eq!(code, Some(0));
    let mut lines: Vec<&str> = text.lines().collect();
    lines.sort();
    assert_eq!(lines, vec!["A=2", "B=x"]);
}

#[test]
fn remove_then_set_is_observed() {
    let mut command: PtyCommand<u8> = PtyCommand::new("/usr/bin/env");
    command.env_clear().env_remove("A").env("A", "3");
    let mut launch = command.spawn(Some(7)).unwrap();
    assert_eq!(output_of(&mut launch), ("A=3\n".to_string(), Some(0)));
}

#[test]
fn child_starts_in_the_directory_set_last() {
    let mut command: PtyCommand<u8> = PtyCommand::new("/bin/pwd");
    command.current_dir("/tmp").current_dir("/");
    let mut launch = command.spawn(Some(7)).unwrap();
    assert_eq!(output_of(&mut launch), ("/\n".to_string(), Some(0)));
}

#[test]
fn nonexistent_program_is_a_spawn_failure() {
    let mut command: PtyCommand<u8> = PtyCommand::new("/nonexistent/pty-spawn-no-such-program");
    let mut launch = command.spawn(Some(7)).expect("the description itself is accepted");
    let created = launch.command.spawn();
    assert!(created.is_err());
    match Child::attach(created, "terminal") {
        Err(SpawnError::Spawn(cause)) => assert_eq!(cause.kind(), std::io::ErrorKind::NotFound),
        other => panic!("expected a spawn failure, got {:?}", other.map(|_| ())),
    }
}

fn creation_fails_as_invalid_input(command: &mut PtyCommand<u8>) {
    let mut launch = command.spawn(Some(7)).expect("the description itself is accepted");
    let created = launch.command.spawn();
    match Child::attach(created, "terminal") {
        Err(SpawnError::Spawn(cause)) => {
            assert_eq!(cause.kind(), std::io::ErrorKind::InvalidInput)
        }
        other => panic!("expected a spawn failure, got {:?}", other.map(|_| ())),
    }
}

#[test]
fn program_with_nul_is_accepted_and_fails_at_creation() {
    let mut command: PtyCommand<u8> = PtyCommand::new("/bin/ec\0ho");
    command.arg("hello");
    assert_eq!(command.get_program(), "/bin/ec\0ho");
    creation_fails_as_invalid_input(&mut command);
}

#[test]
fn argument_with_nul_is_accepted_and_fails_at_creation() {
    let mut command: PtyCommand<u8> = PtyCommand::new("/bin/echo");
    command.arg("hel\0lo").arg("world");
    assert_eq!(command.get_args(), &vec!["hel\0lo".to_string(), "world".to_string()]);
    creation_fails_as_invalid_input(&mut command);
}

#[test]
fn directory_with_nul_is_accepted_and_fails_at_creation() {
    let mut command: PtyCommand<u8> = PtyCommand::new("/bin/pwd");
    command.current_dir("/t\0mp");
    assert_eq!(command.get_current_dir(), Some("/t\0mp"));
    creation_fails_as_invalid_input(&mut command);
}

#[test]
fn program_argument_and_directory_with_nul_fail_at_creation() {
    let mut command: PtyCommand<u8> = PtyCommand::new("/bin/ec\0ho");
    command.arg("hel\0lo").current_dir("/t\0mp");
    creation_fails_as_invalid_input(&mut command);
}
