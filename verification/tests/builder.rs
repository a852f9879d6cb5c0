use pty_spawn::{EnvEdit, PtyCommand};

fn set(key: &str, value: &str) -> EnvEdit {
    EnvEdit::Assign(key.to_string(), value.to_string())
}

#[test]
fn new_holds_the_program_and_nothing_else() {
    let command: PtyCommand<u8> = PtyCommand::new("/bin/echo");
    assert_eq!(command.get_program(), "/bin/echo");
    assert!(command.get_args().is_empty());
    assert!(command.get_env_edits().is_empty());
    assert_eq!(command.get_current_dir(), None);
}

#[test]
fn new_defers_malformed_programs() {
    let command: PtyCommand<u8> = PtyCommand::new("");
    assert_eq!(command.get_program(), "");
    let command: PtyCommand<u8> = PtyCommand::new("no\0such");
    assert_eq!(command.get_program(), "no\0such");
}

#[test]
fn arg_appends_in_call_order() {
    let mut command: PtyCommand<u8> = PtyCommand::new("echo");
    command.arg("first");
    command.arg("second");
    assert_eq!(command.get_args(), &vec!["first".to_string(), "second".to_string()]);
    assert_eq!(command.get_program(), "echo");
}

#[test]
fn args_appends_all_behind_earlier_ones() {
    let mut command: PtyCommand<u8> = PtyCommand::new("echo");
    command.arg("a").args(&["b", "c"]).args(&[]).arg("d");
    let expected: Vec<String> = vec!["a", "b", "c", "d"].into_iter().map(String::from).collect();
    assert_eq!(command.get_args(), &expected);
}

#[test]
fn env_edits_are_recorded_in_call_order() {
    let mut command: PtyCommand<u8> = PtyCommand::new("env");
    command.env("A", "1").env_clear().env("A", "2").env_remove("B");
    assert_eq!(
        command.get_env_edits(),
        &vec![set("A", "1"), EnvEdit::ClearAll, set("A", "2"), EnvEdit::Remove("B".to_string())]
    );
}

#[test]
fn repeated_keys_are_all_kept() {
    let mut command: PtyCommand<u8> = PtyCommand::new("env");
    command.env("A", "1").env("A", "2");
    assert_eq!(command.get_env_edits(), &vec![set("A", "1"), set("A", "2")]);
}

#[test]
fn envs_records_one_assignment_per_pair() {
    let mut command: PtyCommand<u8> = PtyCommand::new("env");
    command.env_remove("TERM");
    command.envs(&[("PATH", "/bin"), ("TERM", "xterm-256color")]);
    assert_eq!(
        command.get_env_edits(),
        &vec![
            EnvEdit::Remove("TERM".to_string()),
            set("PATH", "/bin"),
            set("TERM", "xterm-256color"),
        ]
    );
    command.envs(&[]);
    assert_eq!(command.get_env_edits().len(), 3);
}

#[test]
fn current_dir_keeps_the_last_one() {
    let mut command: PtyCommand<u8> = PtyCommand::new("pwd");
    command.current_dir("/tmp");
    assert_eq!(command.get_current_dir(), Some("/tmp"));
    command.current_dir("/");
    assert_eq!(command.get_current_dir(), Some("/"));
}

#[test]
fn mutators_leave_the_other_parts_alone() {
    let mut command: PtyCommand<u8> = PtyCommand::new("prog");
    command.arg("x").env("K", "v").current_dir("/d");
    command.stdin(Some(1)).stdout(Some(2)).stderr(None);
    assert_eq!(command.get_program(), "prog");
    assert_eq!(command.get_args(), &vec!["x".to_string()]);
    assert_eq!(command.get_env_edits(), &vec![set("K", "v")]);
    assert_eq!(command.get_current_dir(), Some("/d"));
}
