use prompt_editor::scratch::{fresh_scratch_file_name, scratch_file_name};
use prompt_editor::session::{edited_text, step};
use prompt_editor::{
    BufferPrimitive, EditorCommand, EditorError, EditorLauncher, ExitReport, SessionAction,
    SessionEvent, SessionPhase,
};

fn finish(remove_scratch: bool, outcome: Result<Option<String>, EditorError>) -> SessionAction {
    SessionAction::Finish { remove_scratch, outcome }
}

#[test]
fn write_success_launches_editor() {
    assert_eq!(
        step(SessionPhase::Writing, SessionEvent::Written { ok: true }),
        (SessionPhase::Running, SessionAction::Launch)
    );
}

#[test]
fn write_failure_removes_scratch_file() {
    assert_eq!(
        step(SessionPhase::Writing, SessionEvent::Written { ok: false }),
        (SessionPhase::Finished, finish(true, Err(EditorError::WriteFailure)))
    );
}

#[test]
fn missing_program_is_spawn_failure_and_removes_scratch_file() {
    assert_eq!(
        step(SessionPhase::Running, SessionEvent::Exited { report: ExitReport::NotSpawned }),
        (SessionPhase::Finished, finish(true, Err(EditorError::SpawnFailure)))
    );
}

#[test]
fn non_zero_exit_removes_scratch_file() {
    assert_eq!(
        step(SessionPhase::Running, SessionEvent::Exited { report: ExitReport::Failed }),
        (SessionPhase::Finished, finish(true, Err(EditorError::NonZeroExit)))
    );
}

#[test]
fn successful_exit_reads_scratch_file() {
    assert_eq!(
        step(SessionPhase::Running, SessionEvent::Exited { report: ExitReport::Succeeded }),
        (SessionPhase::Reading, SessionAction::ReadScratch)
    );
}

#[test]
fn read_failure_removes_scratch_file() {
    assert_eq!(
        step(SessionPhase::Reading, SessionEvent::ReadBack { content: None }),
        (SessionPhase::Finished, finish(true, Err(EditorError::ReadFailure)))
    );
}

#[test]
fn edited_content_is_returned_without_final_newline() {
    let event = SessionEvent::ReadBack { content: Some(String::from("Edited: hello world\n")) };
    assert_eq!(
        step(SessionPhase::Reading, event),
        (SessionPhase::Finished, finish(true, Ok(Some(String::from("Edited: hello world")))))
    );
}

#[test]
fn emptied_file_returns_none() {
    let event = SessionEvent::ReadBack { content: Some(String::new()) };
    assert_eq!(step(SessionPhase::Reading, event), (SessionPhase::Finished, finish(true, Ok(None))));
    let event = SessionEvent::ReadBack { content: Some(String::from(" \n\t \n")) };
    assert_eq!(step(SessionPhase::Reading, event), (SessionPhase::Finished, finish(true, Ok(None))));
}

#[test]
fn stray_events_are_ignored() {
    assert_eq!(
        step(SessionPhase::Writing, SessionEvent::ReadBack { content: Some(String::from("x")) }),
        (SessionPhase::Writing, SessionAction::Ignore)
    );
    assert_eq!(
        step(SessionPhase::Running, SessionEvent::Written { ok: true }),
        (SessionPhase::Running, SessionAction::Ignore)
    );
    assert_eq!(
        step(SessionPhase::Reading, SessionEvent::Exited { report: ExitReport::Succeeded }),
        (SessionPhase::Reading, SessionAction::Ignore)
    );
    assert_eq!(
        step(SessionPhase::Finished, SessionEvent::Written { ok: false }),
        (SessionPhase::Finished, SessionAction::Ignore)
    );
}

#[test]
fn edited_text_keeps_everything_but_one_final_newline() {
    assert_eq!(edited_text("hello"), Some(String::from("hello")));
    assert_eq!(edited_text("hello\n"), Some(String::from("hello")));
    assert_eq!(edited_text("hello\n\n\n"), Some(String::from("hello\n\n")));
    assert_eq!(edited_text("  hello  \n"), Some(String::from("  hello  ")));
    assert_eq!(edited_text("hello \n "), Some(String::from("hello \n ")));
    assert_eq!(edited_text("hello\r\n"), Some(String::from("hello\r")));
    assert_eq!(edited_text("line 1\nline 2\nline 3"), Some(String::from("line 1\nline 2\nline 3")));
    assert_eq!(edited_text(""), None);
    assert_eq!(edited_text("\n"), None);
    assert_eq!(edited_text(" \t\r\n"), None);
}

#[test]
fn unchanged_round_trip_is_noop() {
    let line = "Special chars: $PATH, ~/, 'quotes', \"double quotes\"";
    let mut phase = SessionPhase::Writing;
    let mut last = SessionAction::Ignore;
    let events = [
        SessionEvent::Written { ok: true },
        SessionEvent::Exited { report: ExitReport::Succeeded },
        SessionEvent::ReadBack { content: Some(format!("{}\n", line)) },
    ];
    for event in events {
        let (next, action) = step(phase, event);
        phase = next;
        last = action;
    }
    assert_eq!(phase, SessionPhase::Finished);
    match last {
        SessionAction::Finish { remove_scratch, outcome } => {
            assert!(remove_scratch);
            assert_eq!(outcome, Ok(Some(String::from(line))));
            assert_eq!(EditorLauncher::respond(outcome, line, 4), BufferPrimitive::NoOp);
        }
        _ => panic!("the session did not finish"),
    }
}

#[test]
fn command_splits_program_and_arguments() {
    let cmd = EditorCommand::resolve(Some("code --wait"));
    assert_eq!(cmd.program, "code");
    assert_eq!(cmd.args, vec![String::from("--wait")]);
    let cmd = EditorCommand::resolve(Some("true --wait --new-window"));
    assert_eq!(cmd.program, "true");
    assert_eq!(cmd.args, vec![String::from("--wait"), String::from("--new-window")]);
}

#[test]
fn command_respects_quoting() {
    let cmd = EditorCommand::resolve(Some("'/opt/my editor/bin' \"a b\" c\\ d"));
    assert_eq!(cmd.program, "/opt/my editor/bin");
    assert_eq!(cmd.args, vec![String::from("a b"), String::from("c d")]);
}

#[test]
fn command_defaults_to_vi() {
    let cmd = EditorCommand::resolve(None);
    assert_eq!(cmd.program, "vi");
    assert!(cmd.args.is_empty());
}

#[test]
fn malformed_or_empty_line_is_taken_whole() {
    let cmd = EditorCommand::resolve(Some("vim \"unclosed"));
    assert_eq!(cmd.program, "vim \"unclosed");
    assert!(cmd.args.is_empty());
    let cmd = EditorCommand::resolve(Some(""));
    assert_eq!(cmd.program, "");
    assert!(cmd.args.is_empty());
    let cmd = EditorCommand::resolve(Some("   "));
    assert_eq!(cmd.program, "   ");
    assert!(cmd.args.is_empty());
}

#[test]
fn command_from_given_tokens() {
    let cmd = EditorCommand::from_tokens("ignored", Some(vec![String::from("nano")]));
    assert_eq!(cmd, EditorCommand { program: String::from("nano"), args: vec![] });
    let cmd = EditorCommand::from_tokens("whole line", Some(vec![]));
    assert_eq!(cmd, EditorCommand { program: String::from("whole line"), args: vec![] });
    let cmd = EditorCommand::from_tokens("whole line", None);
    assert_eq!(cmd, EditorCommand { program: String::from("whole line"), args: vec![] });
}

#[test]
fn scratch_path_is_the_last_argument() {
    let cmd = EditorCommand::resolve(Some("code --wait -n"));
    assert_eq!(
        cmd.launch_arguments("/tmp/scratch.md"),
        vec![String::from("--wait"), String::from("-n"), String::from("/tmp/scratch.md")]
    );
    let cmd = EditorCommand::resolve(Some("vi"));
    assert_eq!(cmd.launch_arguments("f.md"), vec![String::from("f.md")]);
}

#[test]
fn scratch_file_name_has_prefix_and_extension() {
    assert_eq!(scratch_file_name("abc"), "q-developer-prompt-abc.md");
    assert_eq!(scratch_file_name(""), "q-developer-prompt-.md");
}

#[test]
fn fresh_scratch_file_names_are_well_formed_and_differ() {
    let a = fresh_scratch_file_name();
    let b = fresh_scratch_file_name();
    assert_ne!(a, b);
    for name in [a, b] {
        assert_eq!(name.len(), 58);
        assert!(name.starts_with("q-developer-prompt-"));
        assert!(name.ends_with(".md"));
        let id = &name[19..55];
        for (i, c) in id.chars().enumerate() {
            if i == 8 || i == 13 || i == 18 || i == 23 {
                assert_eq!(c, '-');
            } else {
                assert!(c.is_ascii_digit() || ('a'..='f').contains(&c));
            }
        }
    }
}
