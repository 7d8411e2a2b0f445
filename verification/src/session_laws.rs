//! How a call of the editor goes, command by command: what each outcome leads to, in terms of the
//! arguments, the file and the histories.
use vstd::prelude::*;

use crate::editor::{
    inserted, past_end, range_view, str_replaced, view_output, ErrorView, FunctionCallError,
    MinimalEditorArgs, MinimalEditorCommand,
};
use crate::editor_session::{
    answers, first_stage, may_change, stage_fits, stage_for, step, ActionView, EditorAction,
    EditorEvent, EditorPayload, EditorSession, EditorStage, Step,
};
use crate::lines::lines;

verus! {

/// A call that views a file asks for the permission to read it, reads it, and answers with what the
/// view shows. Where the file cannot be read, the model is told why.
pub proof fn law_view_call(
    args: MinimalEditorArgs,
    path: Seq<char>,
    histories: Map<Seq<char>, Seq<Seq<char>>>,
    content: String,
    reason: String,
)
    requires
        args.command == MinimalEditorCommand::View,
    ensures
        first_stage(args.command) == EditorStage::Readable,
        step(args, path, EditorStage::Readable, histories, EditorEvent::Admitted) == (Step {
            stage: EditorStage::Read,
            histories,
            action: ActionView::ReadFile,
        }),
        step(
            args,
            path,
            EditorStage::Read,
            histories,
            EditorEvent::FileRead { outcome: Ok(content) },
        ) == (Step {
            stage: EditorStage::Done,
            histories,
            action: ActionView::Succeed {
                text: view_output(content@, range_view(args.view_range)),
                success: Some(true),
            },
        }),
        step(
            args,
            path,
            EditorStage::Read,
            histories,
            EditorEvent::FileRead { outcome: Err(reason) },
        ) == (Step {
            stage: EditorStage::Done,
            histories,
            action: ActionView::Fail {
                error: ErrorView::RespondToModel("view failed: "@ + reason@),
            },
        }),
{
    reveal_strlit("view");
    reveal_strlit(" failed: ");
    reveal_strlit("view failed: ");
    assert("view"@ + " failed: "@ =~= "view failed: "@);
}

/// A call that creates a file asks for the permission to write it and looks whether it exists. Where it
/// does, or where the text is missing, the model is told; otherwise the text is written, and the
/// history notes that there was nothing before.
pub proof fn law_create_call(
    args: MinimalEditorArgs,
    path: Seq<char>,
    histories: Map<Seq<char>, Seq<Seq<char>>>,
    exists: Option<bool>,
    reason: String,
)
    requires
        args.command == MinimalEditorCommand::Create,
    ensures
        first_stage(args.command) == EditorStage::Writable,
        step(args, path, EditorStage::Writable, histories, EditorEvent::Admitted) == (Step {
            stage: EditorStage::Probe,
            histories,
            action: ActionView::ProbeFile,
        }),
        step(
            args,
            path,
            EditorStage::Probe,
            histories,
            EditorEvent::Probed { exists },
        ) == if exists == Some(true) {
            Step {
                stage: EditorStage::Done,
                histories,
                action: ActionView::Fail {
                    error: ErrorView::RespondToModel(
                        "create failed: file already exists: "@ + path,
                    ),
                },
            }
        } else if args.file_text is None {
            Step {
                stage: EditorStage::Done,
                histories,
                action: ActionView::Fail {
                    error: ErrorView::RespondToModel("missing required "@ + "file_text"@),
                },
            }
        } else {
            Step {
                stage: EditorStage::Write,
                histories: histories.insert(path, histories[path].push(Seq::empty())),
                action: ActionView::WriteFile { text: args.file_text->Some_0@ },
            }
        },
        step(
            args,
            path,
            EditorStage::Write,
            histories,
            EditorEvent::FileWritten { outcome: Ok(()) },
        ) == (Step {
            stage: EditorStage::Done,
            histories,
            action: ActionView::Succeed { text: "Created file: "@ + path, success: Some(true) },
        }),
        step(
            args,
            path,
            EditorStage::Write,
            histories,
            EditorEvent::FileWritten { outcome: Err(reason) },
        ) == (Step {
            stage: EditorStage::Done,
            histories,
            action: ActionView::Fail {
                error: ErrorView::RespondToModel("create failed: "@ + reason@),
            },
        }),
{
    reveal_strlit("create");
    reveal_strlit(" failed: ");
    reveal_strlit("create failed: ");
    assert("create"@ + " failed: "@ =~= "create failed: "@);
}

/// What every call that edits the file's text does alike: it asks for the permission to read and then
/// to write; where the file cannot be read or written, the model is told why; and once it is written,
/// the call succeeds.
pub proof fn law_edit_call(
    args: MinimalEditorArgs,
    path: Seq<char>,
    histories: Map<Seq<char>, Seq<Seq<char>>>,
    word: Seq<char>,
    reason: String,
)
    requires
        (args.command == MinimalEditorCommand::StrReplace && word == "str_replace failed: "@) || (
        args.command == MinimalEditorCommand::Insert && word == "insert failed: "@),
    ensures
        first_stage(args.command) == EditorStage::Readable,
        step(args, path, EditorStage::Readable, histories, EditorEvent::Admitted) == (Step {
            stage: EditorStage::Writable,
            histories,
            action: ActionView::CheckWritable,
        }),
        step(
            args,
            path,
            EditorStage::Read,
            histories,
            EditorEvent::FileRead { outcome: Err(reason) },
        ) == (Step {
            stage: EditorStage::Done,
            histories,
            action: ActionView::Fail { error: ErrorView::RespondToModel(word + reason@) },
        }),
        step(
            args,
            path,
            EditorStage::Write,
            histories,
            EditorEvent::FileWritten { outcome: Ok(()) },
        ) == (Step {
            stage: EditorStage::Done,
            histories,
            action: ActionView::Succeed { text: "Edited file: "@ + path, success: Some(true) },
        }),
        step(
            args,
            path,
            EditorStage::Write,
            histories,
            EditorEvent::FileWritten { outcome: Err(reason) },
        ) == (Step {
            stage: EditorStage::Done,
            histories,
            action: ActionView::Fail { error: ErrorView::RespondToModel(word + reason@) },
        }),
{
    reveal_strlit("str_replace");
    reveal_strlit("insert");
    reveal_strlit(" failed: ");
    reveal_strlit("str_replace failed: ");
    reveal_strlit("insert failed: ");
    assert("str_replace"@ + " failed: "@ =~= "str_replace failed: "@);
    assert("insert"@ + " failed: "@ =~= "insert failed: "@);
}

/// A call that replaces a text needs the old text and then the new one, and reads the file only with
/// both. What it makes of the file's text is written, and the history notes the text as it was; where
/// it can make nothing of it, the model is told why, and nothing is noted.
pub proof fn law_replace_call(
    args: MinimalEditorArgs,
    path: Seq<char>,
    histories: Map<Seq<char>, Seq<Seq<char>>>,
    content: String,
)
    requires
        args.command == MinimalEditorCommand::StrReplace,
    ensures
        step(args, path, EditorStage::Writable, histories, EditorEvent::Admitted)
            == if args.old_str is None {
            Step {
                stage: EditorStage::Done,
                histories,
                action: ActionView::Fail {
                    error: ErrorView::RespondToModel("missing required "@ + "old_str"@),
                },
            }
        } else if args.new_str is None {
            Step {
                stage: EditorStage::Done,
                histories,
                action: ActionView::Fail {
                    error: ErrorView::RespondToModel("missing required "@ + "new_str"@),
                },
            }
        } else {
            Step { stage: EditorStage::Read, histories, action: ActionView::ReadFile }
        },
        args.old_str is Some && args.new_str is Some ==> step(
            args,
            path,
            EditorStage::Read,
            histories,
            EditorEvent::FileRead { outcome: Ok(content) },
        ) == match str_replaced(content@, args.old_str->Some_0@, args.new_str->Some_0@) {
            Ok(text) => Step {
                stage: EditorStage::Write,
                histories: histories.insert(path, histories[path].push(content@)),
                action: ActionView::WriteFile { text },
            },
            Err(error) => Step {
                stage: EditorStage::Done,
                histories,
                action: ActionView::Fail { error },
            },
        },
{
}

/// A call that inserts a text needs the line and then the text, and reads the file only with both. The
/// text with the insertion is written, and the history notes it as it was; where the file has too few
/// lines, the model is told, and nothing is noted.
pub proof fn law_insert_call(
    args: MinimalEditorArgs,
    path: Seq<char>,
    histories: Map<Seq<char>, Seq<Seq<char>>>,
    content: String,
)
    requires
        args.command == MinimalEditorCommand::Insert,
    ensures
        step(args, path, EditorStage::Writable, histories, EditorEvent::Admitted)
            == if args.insert_line is None {
            Step {
                stage: EditorStage::Done,
                histories,
                action: ActionView::Fail {
                    error: ErrorView::RespondToModel("insert failed: missing insert_line"@),
                },
            }
        } else if args.new_str is None {
            Step {
                stage: EditorStage::Done,
                histories,
                action: ActionView::Fail {
                    error: ErrorView::RespondToModel("missing required "@ + "new_str"@),
                },
            }
        } else {
            Step { stage: EditorStage::Read, histories, action: ActionView::ReadFile }
        },
        args.insert_line is Some && args.new_str is Some ==> step(
            args,
            path,
            EditorStage::Read,
            histories,
            EditorEvent::FileRead { outcome: Ok(content) },
        ) == if args.insert_line->Some_0 <= lines(content@).len() {
            Step {
                stage: EditorStage::Write,
                histories: histories.insert(path, histories[path].push(content@)),
                action: ActionView::WriteFile {
                    text: inserted(
                        content@,
                        args.insert_line->Some_0 as int,
                        args.new_str->Some_0@,
                    ),
                },
            }
        } else {
            Step {
                stage: EditorStage::Done,
                histories,
                action: ActionView::Fail { error: past_end(args.insert_line->Some_0 as nat) },
            }
        },
{
}

/// A call that undoes an edit asks for the permission to write, and writes what the file held before
/// its latest edit, which the history then no longer holds; where there was no edit, the model is told.
pub proof fn law_undo_call(
    args: MinimalEditorArgs,
    path: Seq<char>,
    histories: Map<Seq<char>, Seq<Seq<char>>>,
    reason: String,
)
    requires
        args.command == MinimalEditorCommand::UndoEdit,
    ensures
        first_stage(args.command) == EditorStage::Writable,
        step(args, path, EditorStage::Writable, histories, EditorEvent::Admitted)
            == if histories[path].len() == 0 {
            Step {
                stage: EditorStage::Done,
                histories,
                action: ActionView::Fail {
                    error: ErrorView::RespondToModel(
                        "undo_edit failed: no previous edit for this file"@,
                    ),
                },
            }
        } else {
            Step {
                stage: EditorStage::Write,
                histories: histories.insert(path, histories[path].drop_last()),
                action: ActionView::WriteFile {
                    text: histories[path][histories[path].len() - 1],
                },
            }
        },
        step(
            args,
            path,
            EditorStage::Write,
            histories,
            EditorEvent::FileWritten { outcome: Ok(()) },
        ) == (Step {
            stage: EditorStage::Done,
            histories,
            action: ActionView::Succeed {
                text: "Reverted last edit for: "@ + path,
                success: Some(true),
            },
        }),
        step(
            args,
            path,
            EditorStage::Write,
            histories,
            EditorEvent::FileWritten { outcome: Err(reason) },
        ) == (Step {
            stage: EditorStage::Done,
            histories,
            action: ActionView::Fail {
                error: ErrorView::RespondToModel("undo_edit failed: "@ + reason@),
            },
        }),
{
    reveal_strlit("undo_edit");
    reveal_strlit(" failed: ");
    reveal_strlit("undo_edit failed: ");
    assert("undo_edit"@ + " failed: "@ =~= "undo_edit failed: "@);
}

/// Each action is answered by the outcome of just that action, and the two last ones by nothing.
pub proof fn law_each_action_waits_for_its_outcome(
    text: Seq<char>,
    success: Option<bool>,
    error: ErrorView,
)
    ensures
        stage_for(ActionView::CheckReadable) == EditorStage::Readable,
        stage_for(ActionView::CheckWritable) == EditorStage::Writable,
        stage_for(ActionView::ProbeFile) == EditorStage::Probe,
        stage_for(ActionView::ReadFile) == EditorStage::Read,
        stage_for(ActionView::WriteFile { text }) == EditorStage::Write,
        stage_for(ActionView::Succeed { text, success }) == EditorStage::Done,
        stage_for(ActionView::Fail { error }) == EditorStage::Done,
{
}

/// What an event answers: the permissions are admitted or refused, and the file is looked for, read
/// and written.
pub proof fn law_each_event_answers_its_action(stage: EditorStage, event: EditorEvent)
    ensures
        event is Admitted || event is Refused ==> (answers(stage, event) <==> stage is Readable || stage
            is Writable),
        event is Probed ==> (answers(stage, event) <==> stage is Probe),
        event is FileRead ==> (answers(stage, event) <==> stage is Read),
        event is FileWritten ==> (answers(stage, event) <==> stage is Write),
{
}

/// Which waits belong to which commands: only a command that reads waits for a permission to read or
/// for a text, only one that writes for a permission to write or for a write, and only `create` for
/// the file to be looked for.
pub proof fn law_commands_wait_for_what_they_need(
    command: MinimalEditorCommand,
    stage: EditorStage,
)
    ensures
        stage is Readable || stage is Read ==> (stage_fits(command, stage) <==> command is View
            || command is StrReplace || command is Insert),
        stage is Writable || stage is Write ==> (stage_fits(command, stage) <==> !(command
            is View)),
        stage is Probe ==> (stage_fits(command, stage) <==> command is Create),
        stage is Done ==> stage_fits(command, stage),
{
}

/// Only a call that is known to view leaves every file as it is.
pub proof fn law_only_a_view_changes_nothing(payload: EditorPayload)
    ensures
        !may_change(payload) <==> (payload matches EditorPayload::Arguments { args }
            && args.command is View),
{
}

/// An action means what it says.
pub proof fn law_action_means_what_it_says(
    text: String,
    success: Option<bool>,
    error: FunctionCallError,
)
    ensures
        EditorAction::CheckReadable@ == ActionView::CheckReadable,
        EditorAction::CheckWritable@ == ActionView::CheckWritable,
        EditorAction::ProbeFile@ == ActionView::ProbeFile,
        EditorAction::ReadFile@ == ActionView::ReadFile,
        (EditorAction::WriteFile { text })@ == (ActionView::WriteFile { text: text@ }),
        (EditorAction::Succeed { text, success })@ == (ActionView::Succeed { text: text@, success }),
        (EditorAction::Fail { error })@ == (ActionView::Fail { error: error@ }),
        error@ == match error {
            FunctionCallError::RespondToModel(message) => ErrorView::RespondToModel(message@),
            FunctionCallError::Fatal(message) => ErrorView::Fatal(message@),
        },
{
}

/// A call that is under way goes on by its own arguments, file and stage.
pub proof fn law_call_goes_on_by_its_own_arguments(
    session: EditorSession,
    histories: Map<Seq<char>, Seq<Seq<char>>>,
    event: EditorEvent,
)
    ensures
        session.next(histories, event) == step(
            session.args,
            session.path@,
            session.stage,
            histories,
            event,
        ),
        session.well_formed() <==> stage_fits(session.args.command, session.stage),
{
}

} // verus!
