use open_interpreter::editor::{
    format_view_output, insert_text, replace_text, require_arg, FunctionCallError,
    MinimalEditorArgs, MinimalEditorCommand,
};
use open_interpreter::editor_session::{
    EditorAction, EditorEvent, EditorPayload, EditorSession, EditorStage,
    MinimalStrReplaceEditorHandler, ToolKind,
};
use open_interpreter::undo::UndoStacks;

fn told(message: &str) -> FunctionCallError {
    FunctionCallError::RespondToModel(message.to_string())
}

fn failure(message: &str) -> EditorAction {
    EditorAction::Fail {
        error: told(message),
    }
}

fn args(command: MinimalEditorCommand) -> MinimalEditorArgs {
    MinimalEditorArgs {
        command,
        path: "/f".to_string(),
        view_range: None,
        file_text: None,
        old_str: None,
        new_str: None,
        insert_line: None,
    }
}

fn begin(args: MinimalEditorArgs) -> (EditorSession, EditorAction) {
    MinimalStrReplaceEditorHandler.handle(args, "/f".to_string())
}

fn read(text: &str) -> EditorEvent {
    EditorEvent::FileRead {
        outcome: Ok(text.to_string()),
    }
}

fn written() -> EditorEvent {
    EditorEvent::FileWritten { outcome: Ok(()) }
}

fn replace(old_str: &str, new_str: &str) -> MinimalEditorArgs {
    MinimalEditorArgs {
        old_str: Some(old_str.to_string()),
        new_str: Some(new_str.to_string()),
        ..args(MinimalEditorCommand::StrReplace)
    }
}

fn write(text: &str) -> EditorAction {
    EditorAction::WriteFile {
        text: text.to_string(),
    }
}

fn succeed(text: &str) -> EditorAction {
    EditorAction::Succeed {
        text: text.to_string(),
        success: Some(true),
    }
}

#[test]
fn required_arguments_are_required() {
    assert_eq!(
        require_arg(Some("x".to_string()), "new_str"),
        Ok("x".to_string())
    );
    assert_eq!(
        require_arg(None, "new_str"),
        Err(told("missing required new_str"))
    );
}

#[test]
fn a_view_numbers_the_lines() {
    let content = "a\nb\r\nc";
    assert_eq!(format_view_output(content, &None), "1\ta\n2\tb\n3\tc");
    assert_eq!(format_view_output(content, &Some(vec![2, 2])), "2\tb");
    assert_eq!(format_view_output(content, &Some(vec![2, 9])), "2\tb\n3\tc");
    assert_eq!(format_view_output(content, &Some(vec![0, 1])), "1\ta");
    assert_eq!(format_view_output(content, &Some(vec![3])), "3\tc");
    assert_eq!(format_view_output(content, &Some(vec![3, 1])), "");
    assert_eq!(format_view_output(content, &Some(vec![7])), "");
    assert_eq!(format_view_output(content, &Some(vec![7, 9])), "");
    assert_eq!(
        format_view_output(content, &Some(vec![1, 2, 3])),
        "1\ta\n2\tb\n3\tc"
    );
    assert_eq!(format_view_output(content, &Some(vec![])), "1\ta\n2\tb\n3\tc");
    assert_eq!(format_view_output("", &None), "");
}

#[test]
fn an_insert_puts_a_line_behind_others() {
    assert_eq!(insert_text("a\nb\n", 0, "x"), Ok("x\na\nb\n".to_string()));
    assert_eq!(insert_text("a\nb\n", 1, "x"), Ok("a\nx\nb\n".to_string()));
    assert_eq!(insert_text("a\nb", 2, "x"), Ok("a\nb\nx".to_string()));
    assert_eq!(insert_text("a\r\nb\r\n", 1, "x"), Ok("a\nx\nb\n".to_string()));
    assert_eq!(insert_text("", 0, "x"), Ok("x".to_string()));
    assert_eq!(insert_text("a\r", 1, "b"), Ok("a\r\nb".to_string()));
    assert_eq!(
        insert_text("a\n", 12, "x"),
        Err(told("insert failed: insert_line 12 is past end of file"))
    );
}

#[test]
fn an_inserted_line_is_a_line_of_the_file() {
    let content = "a\nb\n";
    for at in 0..=2usize {
        let updated = insert_text(content, at, "new").expect("inserted");
        let mut expected: Vec<&str> = content.lines().collect();
        expected.insert(at, "new");
        assert_eq!(updated.lines().collect::<Vec<_>>(), expected);
    }
}

#[test]
fn a_replacement_needs_exactly_one_match() {
    assert_eq!(replace_text("a b c", "b", "x"), Ok("a x c".to_string()));
    assert_eq!(replace_text("a b c", "b", ""), Ok("a  c".to_string()));
    assert_eq!(replace_text("aaa", "aa", "x"), Ok("xa".to_string()));
    assert_eq!(replace_text("", "", "x"), Ok("x".to_string()));
    assert_eq!(replace_text("a b c", "b", "b"), Ok("a b c".to_string()));
    assert_eq!(
        replace_text("a b c", "d", "x"),
        Err(told("str_replace failed: old_str was not found"))
    );
    assert_eq!(
        replace_text("b b", "b", "x"),
        Err(told("str_replace failed: old_str is not unique"))
    );
    assert_eq!(
        replace_text("ab", "", "x"),
        Err(told("str_replace failed: old_str is not unique"))
    );
}

#[test]
fn histories_are_kept_for_each_file() {
    let mut undo = UndoStacks::new();
    assert_eq!(undo.pop_undo("/a"), None);
    undo.save_undo("/a", "1".to_string());
    undo.save_undo("/b", "2".to_string());
    undo.save_undo("/a", "3".to_string());
    assert_eq!(undo.pop_undo("/a"), Some("3".to_string()));
    assert_eq!(undo.pop_undo("/b"), Some("2".to_string()));
    assert_eq!(undo.pop_undo("/b"), None);
    assert_eq!(undo.pop_undo("/a"), Some("1".to_string()));
    assert_eq!(undo.pop_undo("/a"), None);
}

#[test]
fn only_a_view_does_not_mutate() {
    let handler = MinimalStrReplaceEditorHandler;
    assert_eq!(handler.kind(), ToolKind::Function);
    let mutating = |command| {
        handler.is_mutating(&EditorPayload::Arguments {
            args: args(command),
        })
    };
    assert!(!mutating(MinimalEditorCommand::View));
    assert!(mutating(MinimalEditorCommand::Create));
    assert!(mutating(MinimalEditorCommand::StrReplace));
    assert!(mutating(MinimalEditorCommand::Insert));
    assert!(mutating(MinimalEditorCommand::UndoEdit));
    assert!(handler.is_mutating(&EditorPayload::Unsupported));
    assert!(handler.is_mutating(&EditorPayload::Malformed { error: told("e") }));
}

#[test]
fn a_call_that_cannot_be_read_is_answered() {
    let handler = MinimalStrReplaceEditorHandler;
    assert_eq!(
        handler.arguments(EditorPayload::Unsupported),
        Err(told("str_replace_editor received unsupported payload"))
    );
    assert_eq!(
        handler.arguments(EditorPayload::Malformed { error: told("e") }),
        Err(told("e"))
    );
    assert_eq!(
        handler.arguments(EditorPayload::Arguments {
            args: args(MinimalEditorCommand::View)
        }),
        Ok(args(MinimalEditorCommand::View))
    );
}

#[test]
fn a_view_reads_and_answers() {
    let mut undo = UndoStacks::new();
    let (mut session, action) = begin(args(MinimalEditorCommand::View));
    assert_eq!(action, EditorAction::CheckReadable);
    assert!(!session.awaits(&written()));
    assert_eq!(
        session.resume(&mut undo, EditorEvent::Admitted),
        EditorAction::ReadFile
    );
    assert_eq!(
        session.resume(&mut undo, read("a\n")),
        succeed("1\ta")
    );
    assert_eq!(session.stage, EditorStage::Done);
}

#[test]
fn a_refusal_ends_the_call() {
    let mut undo = UndoStacks::new();
    let (mut session, _) = begin(args(MinimalEditorCommand::View));
    assert_eq!(
        session.resume(
            &mut undo,
            EditorEvent::Refused {
                error: FunctionCallError::Fatal("no".to_string())
            }
        ),
        EditorAction::Fail {
            error: FunctionCallError::Fatal("no".to_string())
        }
    );
    assert_eq!(session.stage, EditorStage::Done);
}

#[test]
fn a_file_is_created_once() {
    let mut undo = UndoStacks::new();
    let create = || MinimalEditorArgs {
        file_text: Some("text".to_string()),
        ..args(MinimalEditorCommand::Create)
    };
    let (mut session, action) = begin(create());
    assert_eq!(action, EditorAction::CheckWritable);
    assert_eq!(
        session.resume(&mut undo, EditorEvent::Admitted),
        EditorAction::ProbeFile
    );
    assert_eq!(
        session.resume(&mut undo, EditorEvent::Probed { exists: Some(false) }),
        write("text")
    );
    assert_eq!(
        session.resume(&mut undo, written()),
        succeed("Created file: /f")
    );
    assert_eq!(undo.pop_undo("/f"), Some(String::new()));

    let (mut session, _) = begin(create());
    session.resume(&mut undo, EditorEvent::Admitted);
    assert_eq!(
        session.resume(&mut undo, EditorEvent::Probed { exists: Some(true) }),
        failure("create failed: file already exists: /f")
    );
    let (mut session, _) = begin(args(MinimalEditorCommand::Create));
    session.resume(&mut undo, EditorEvent::Admitted);
    assert_eq!(
        session.resume(&mut undo, EditorEvent::Probed { exists: Some(false) }),
        failure("missing required file_text")
    );
    assert_eq!(undo.pop_undo("/f"), None);
}

#[test]
fn an_edit_can_be_undone() {
    let mut undo = UndoStacks::new();
    let (mut session, action) = begin(replace("b", "x"));
    assert_eq!(action, EditorAction::CheckReadable);
    assert_eq!(
        session.resume(&mut undo, EditorEvent::Admitted),
        EditorAction::CheckWritable
    );
    assert_eq!(
        session.resume(&mut undo, EditorEvent::Admitted),
        EditorAction::ReadFile
    );
    assert_eq!(session.resume(&mut undo, read("a b")), write("a x"));
    assert_eq!(
        session.resume(&mut undo, written()),
        succeed("Edited file: /f")
    );

    let (mut session, action) = begin(args(MinimalEditorCommand::UndoEdit));
    assert_eq!(action, EditorAction::CheckWritable);
    assert_eq!(session.resume(&mut undo, EditorEvent::Admitted), write("a b"));
    assert_eq!(
        session.resume(&mut undo, written()),
        succeed("Reverted last edit for: /f")
    );

    let (mut session, _) = begin(args(MinimalEditorCommand::UndoEdit));
    assert_eq!(
        session.resume(&mut undo, EditorEvent::Admitted),
        failure("undo_edit failed: no previous edit for this file")
    );
}

#[test]
fn an_edit_that_fails_leaves_no_history() {
    let mut undo = UndoStacks::new();
    let (mut session, _) = begin(replace("z", "x"));
    session.resume(&mut undo, EditorEvent::Admitted);
    session.resume(&mut undo, EditorEvent::Admitted);
    assert_eq!(
        session.resume(&mut undo, read("a b")),
        failure("str_replace failed: old_str was not found")
    );
    assert_eq!(undo.pop_undo("/f"), None);
}

#[test]
fn a_write_that_fails_keeps_the_history() {
    let mut undo = UndoStacks::new();
    let (mut session, _) = begin(replace("b", "x"));
    session.resume(&mut undo, EditorEvent::Admitted);
    session.resume(&mut undo, EditorEvent::Admitted);
    session.resume(&mut undo, read("a b"));
    assert_eq!(
        session.resume(
            &mut undo,
            EditorEvent::FileWritten {
                outcome: Err("disk full".to_string())
            }
        ),
        failure("str_replace failed: disk full")
    );
    assert_eq!(undo.pop_undo("/f"), Some("a b".to_string()));
}

#[test]
fn an_insert_goes_the_same_way() {
    let mut undo = UndoStacks::new();
    let insert = |insert_line, new_str: Option<&str>| MinimalEditorArgs {
        insert_line,
        new_str: new_str.map(str::to_string),
        ..args(MinimalEditorCommand::Insert)
    };
    let (mut session, _) = begin(insert(Some(1), Some("x")));
    session.resume(&mut undo, EditorEvent::Admitted);
    session.resume(&mut undo, EditorEvent::Admitted);
    assert_eq!(session.resume(&mut undo, read("a\nb\n")), write("a\nx\nb\n"));
    assert_eq!(undo.pop_undo("/f"), Some("a\nb\n".to_string()));

    for (args, message) in [
        (insert(None, None), "insert failed: missing insert_line"),
        (insert(Some(1), None), "missing required new_str"),
    ] {
        let (mut session, _) = begin(args);
        session.resume(&mut undo, EditorEvent::Admitted);
        assert_eq!(
            session.resume(&mut undo, EditorEvent::Admitted),
            failure(message)
        );
    }

    let (mut session, _) = begin(insert(Some(5), Some("x")));
    session.resume(&mut undo, EditorEvent::Admitted);
    session.resume(&mut undo, EditorEvent::Admitted);
    assert_eq!(
        session.resume(&mut undo, read("a\n")),
        failure("insert failed: insert_line 5 is past end of file")
    );
}

#[test]
fn a_replacement_lacks_its_arguments_in_order() {
    let mut undo = UndoStacks::new();
    for (args, message) in [
        (
            args(MinimalEditorCommand::StrReplace),
            "missing required old_str",
        ),
        (
            MinimalEditorArgs {
                old_str: Some("b".to_string()),
                ..args(MinimalEditorCommand::StrReplace)
            },
            "missing required new_str",
        ),
    ] {
        let (mut session, _) = begin(args);
        session.resume(&mut undo, EditorEvent::Admitted);
        assert_eq!(
            session.resume(&mut undo, EditorEvent::Admitted),
            failure(message)
        );
    }
}

#[test]
fn a_file_that_cannot_be_read_fails_the_call() {
    let mut undo = UndoStacks::new();
    let unread = || EditorEvent::FileRead {
        outcome: Err("gone".to_string()),
    };
    let (mut session, _) = begin(args(MinimalEditorCommand::View));
    session.resume(&mut undo, EditorEvent::Admitted);
    assert_eq!(session.resume(&mut undo, unread()), failure("view failed: gone"));
    let (mut session, _) = begin(replace("b", "x"));
    session.resume(&mut undo, EditorEvent::Admitted);
    session.resume(&mut undo, EditorEvent::Admitted);
    assert_eq!(
        session.resume(&mut undo, unread()),
        failure("str_replace failed: gone")
    );
}

#[test]
fn edits_are_undone_in_the_opposite_order() {
    let mut undo = UndoStacks::new();
    for (old_str, new_str, before, after) in [("a", "b", "a", "b"), ("b", "c", "b", "c")] {
        let (mut session, _) = begin(replace(old_str, new_str));
        session.resume(&mut undo, EditorEvent::Admitted);
        session.resume(&mut undo, EditorEvent::Admitted);
        assert_eq!(session.resume(&mut undo, read(before)), write(after));
        session.resume(&mut undo, written());
    }
    undo.save_undo("/other", "other".to_string());
    for before in ["b", "a"] {
        let (mut session, _) = begin(args(MinimalEditorCommand::UndoEdit));
        assert_eq!(
            session.resume(&mut undo, EditorEvent::Admitted),
            write(before)
        );
        session.resume(&mut undo, written());
    }
    assert_eq!(undo.pop_undo("/f"), None);
    assert_eq!(undo.pop_undo("/other"), Some("other".to_string()));
}

#[test]
fn a_file_of_which_nothing_is_known_counts_as_missing() {
    let mut undo = UndoStacks::new();
    let (mut session, _) = begin(MinimalEditorArgs {
        file_text: Some("text".to_string()),
        ..args(MinimalEditorCommand::Create)
    });
    session.resume(&mut undo, EditorEvent::Admitted);
    assert_eq!(
        session.resume(&mut undo, EditorEvent::Probed { exists: None }),
        write("text")
    );
}
