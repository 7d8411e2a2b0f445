//! A call of the editor, step by step.
//!
//! The editor decides; whoever runs it performs the action that it asks for, on the file of the call,
//! and hands back what came of it.
use vstd::prelude::*;
use vstd::string::StringExecFns;

use crate::editor::{
    format_view_output, insert_text, inserted, missing, past_end, range_view, replace_text,
    require_arg, respond, result_view, str_replaced, view_output, ErrorView, FunctionCallError,
    MinimalEditorArgs, MinimalEditorCommand,
};
use crate::lines::lines;
use crate::text::concat;
use crate::undo::UndoStacks;

verus! {

/// What the model sent as a call of the editor.
#[derive(Debug, PartialEq, Eq)]
pub enum EditorPayload {
    /// Something other than a function call.
    Unsupported,
    /// Arguments that cannot be read, and why.
    Malformed { error: FunctionCallError },
    /// Arguments.
    Arguments { args: MinimalEditorArgs },
}

/// What is to be done next with the file.
#[derive(Debug, PartialEq, Eq)]
pub enum EditorAction {
    /// Find out whether the file may be read.
    CheckReadable,
    /// Find out whether the file may be written.
    CheckWritable,
    /// Find out whether the file exists.
    ProbeFile,
    /// Read the file.
    ReadFile,
    /// Write the file.
    WriteFile { text: String },
    /// Answer the call, and be done. `success` says whether the call did what it was asked to do,
    /// where that is known.
    Succeed { text: String, success: Option<bool> },
    /// Fail the call, and be done.
    Fail { error: FunctionCallError },
}

/// What an [`EditorAction`] means.
pub enum ActionView {
    CheckReadable,
    CheckWritable,
    ProbeFile,
    ReadFile,
    WriteFile { text: Seq<char> },
    Succeed { text: Seq<char>, success: Option<bool> },
    Fail { error: ErrorView },
}

impl EditorAction {
    /// What the action means.
    pub open spec fn view(&self) -> ActionView {
        match self {
            EditorAction::CheckReadable => ActionView::CheckReadable,
            EditorAction::CheckWritable => ActionView::CheckWritable,
            EditorAction::ProbeFile => ActionView::ProbeFile,
            EditorAction::ReadFile => ActionView::ReadFile,
            EditorAction::WriteFile { text } => ActionView::WriteFile { text: text@ },
            EditorAction::Succeed { text, success } => ActionView::Succeed {
                text: text@,
                success: *success,
            },
            EditorAction::Fail { error } => ActionView::Fail { error: error@ },
        }
    }
}

/// What came of an action.
#[allow(inconsistent_fields)]
#[derive(Debug, PartialEq, Eq)]
pub enum EditorEvent {
    /// The file may be used so.
    Admitted,
    /// The file may not be used so, and why.
    Refused { error: FunctionCallError },
    /// The file exists, or does not; nothing is said where that could not be found out.
    Probed { exists: Option<bool> },
    /// What the file holds, or why it could not be read.
    FileRead { outcome: Result<String, String> },
    /// The file was written, or why not.
    FileWritten { outcome: Result<(), String> },
}

/// What the editor waits for.
#[derive(Debug, Clone, Copy, PartialEq, Eq, Structural)]
pub enum EditorStage {
    Readable,
    Writable,
    Probe,
    Read,
    Write,
    Done,
}

/// A call of the editor that is under way.
#[derive(Debug, PartialEq, Eq)]
pub struct EditorSession {
    /// The arguments of the call.
    pub args: MinimalEditorArgs,
    /// The file's path as it is displayed.
    pub path: String,
    /// What the editor waits for.
    pub stage: EditorStage,
}

/// A step of the editor: what it waits for then, what the files held before their edits, and what is
/// to be done.
pub struct Step {
    pub stage: EditorStage,
    pub histories: Map<Seq<char>, Seq<Seq<char>>>,
    pub action: ActionView,
}

/// The step that fails the call.
pub open spec fn failed(histories: Map<Seq<char>, Seq<Seq<char>>>, error: ErrorView) -> Step {
    Step { stage: EditorStage::Done, histories, action: ActionView::Fail { error } }
}

/// The answer to a call that did what it was asked to do.
pub open spec fn succeeded(text: Seq<char>) -> ActionView {
    ActionView::Succeed { text, success: Some(true) }
}

/// The step that asks for an action and changes nothing else.
pub open spec fn asked(
    stage: EditorStage,
    histories: Map<Seq<char>, Seq<Seq<char>>>,
    action: ActionView,
) -> Step {
    Step { stage, histories, action }
}

/// The step that notes what the file holds and writes `text` in its place.
pub open spec fn edited(
    path: Seq<char>,
    histories: Map<Seq<char>, Seq<Seq<char>>>,
    content: Seq<char>,
    text: Seq<char>,
) -> Step {
    Step {
        stage: EditorStage::Write,
        histories: histories.insert(path, histories[path].push(content)),
        action: ActionView::WriteFile { text },
    }
}

/// A command as the model writes it.
pub open spec fn command_word(command: MinimalEditorCommand) -> Seq<char> {
    match command {
        MinimalEditorCommand::View => "view"@,
        MinimalEditorCommand::Create => "create"@,
        MinimalEditorCommand::StrReplace => "str_replace"@,
        MinimalEditorCommand::Insert => "insert"@,
        MinimalEditorCommand::UndoEdit => "undo_edit"@,
    }
}

/// The error that a command could not use the file.
pub open spec fn file_error(command: MinimalEditorCommand, reason: Seq<char>) -> ErrorView {
    ErrorView::RespondToModel(command_word(command) + " failed: "@ + reason)
}

/// The answer to a call that wrote the file.
pub open spec fn written_text(command: MinimalEditorCommand, path: Seq<char>) -> Seq<char> {
    match command {
        MinimalEditorCommand::Create => "Created file: "@ + path,
        MinimalEditorCommand::UndoEdit => "Reverted last edit for: "@ + path,
        _ => "Edited file: "@ + path,
    }
}

/// How a call begins: with the permission to read the file where the command reads it, and with the
/// permission to write it otherwise.
pub open spec fn first_stage(command: MinimalEditorCommand) -> EditorStage {
    match command {
        MinimalEditorCommand::View => EditorStage::Readable,
        MinimalEditorCommand::StrReplace => EditorStage::Readable,
        MinimalEditorCommand::Insert => EditorStage::Readable,
        MinimalEditorCommand::Create => EditorStage::Writable,
        MinimalEditorCommand::UndoEdit => EditorStage::Writable,
    }
}

/// What a command that edits the file's text lacks, where it lacks an argument.
pub open spec fn lacking(args: MinimalEditorArgs) -> Option<ErrorView> {
    match args.command {
        MinimalEditorCommand::StrReplace => if args.old_str is None {
            Some(missing("old_str"@))
        } else if args.new_str is None {
            Some(missing("new_str"@))
        } else {
            None
        },
        MinimalEditorCommand::Insert => if args.insert_line is None {
            Some(ErrorView::RespondToModel("insert failed: missing insert_line"@))
        } else if args.new_str is None {
            Some(missing("new_str"@))
        } else {
            None
        },
        _ => None,
    }
}

/// What a command that edits makes of the file's text.
pub open spec fn edit(args: MinimalEditorArgs, content: Seq<char>) -> Result<Seq<char>, ErrorView> {
    if lacking(args) is Some {
        Err(lacking(args)->Some_0)
    } else if args.command == MinimalEditorCommand::StrReplace {
        str_replaced(content, args.old_str->Some_0@, args.new_str->Some_0@)
    } else {
        let insert_line = args.insert_line->Some_0;
        if insert_line <= lines(content).len() {
            Ok(inserted(content, insert_line as int, args.new_str->Some_0@))
        } else {
            Err(past_end(insert_line as nat))
        }
    }
}

/// The step once the file may be written.
pub open spec fn once_writable(
    args: MinimalEditorArgs,
    path: Seq<char>,
    histories: Map<Seq<char>, Seq<Seq<char>>>,
) -> Step {
    match args.command {
        MinimalEditorCommand::Create => asked(
            EditorStage::Probe,
            histories,
            ActionView::ProbeFile,
        ),
        MinimalEditorCommand::UndoEdit => {
            let history = histories[path];
            if history.len() == 0 {
                failed(
                    histories,
                    ErrorView::RespondToModel("undo_edit failed: no previous edit for this file"@),
                )
            } else {
                Step {
                    stage: EditorStage::Write,
                    histories: histories.insert(path, history.drop_last()),
                    action: ActionView::WriteFile { text: history.last() },
                }
            }
        },
        _ => match lacking(args) {
            Some(error) => failed(histories, error),
            None => asked(EditorStage::Read, histories, ActionView::ReadFile),
        },
    }
}

/// The step once it was looked for the file. A file of which nothing could be found out counts as one
/// that does not exist.
pub open spec fn once_probed(
    args: MinimalEditorArgs,
    path: Seq<char>,
    histories: Map<Seq<char>, Seq<Seq<char>>>,
    exists: Option<bool>,
) -> Step {
    if exists == Some(true) {
        failed(
            histories,
            ErrorView::RespondToModel("create failed: file already exists: "@ + path),
        )
    } else {
        match args.file_text {
            None => failed(histories, missing("file_text"@)),
            Some(text) => edited(path, histories, Seq::empty(), text@),
        }
    }
}

/// The step once the file has been read.
pub open spec fn once_read(
    args: MinimalEditorArgs,
    path: Seq<char>,
    histories: Map<Seq<char>, Seq<Seq<char>>>,
    content: Seq<char>,
) -> Step {
    if args.command == MinimalEditorCommand::View {
        asked(
            EditorStage::Done,
            histories,
            succeeded(view_output(content, range_view(args.view_range))),
        )
    } else {
        match edit(args, content) {
            Ok(text) => edited(path, histories, content, text),
            Err(error) => failed(histories, error),
        }
    }
}

/// The step once `event` has come.
pub open spec fn step(
    args: MinimalEditorArgs,
    path: Seq<char>,
    stage: EditorStage,
    histories: Map<Seq<char>, Seq<Seq<char>>>,
    event: EditorEvent,
) -> Step {
    match event {
        EditorEvent::Admitted => if stage == EditorStage::Writable {
            once_writable(args, path, histories)
        } else if args.command == MinimalEditorCommand::View {
            asked(EditorStage::Read, histories, ActionView::ReadFile)
        } else {
            asked(EditorStage::Writable, histories, ActionView::CheckWritable)
        },
        EditorEvent::Refused { error } => failed(histories, error@),
        EditorEvent::Probed { exists } => once_probed(args, path, histories, exists),
        EditorEvent::FileRead { outcome } => match outcome {
            Ok(content) => once_read(args, path, histories, content@),
            Err(reason) => failed(histories, file_error(args.command, reason@)),
        },
        EditorEvent::FileWritten { outcome } => match outcome {
            Ok(_) => asked(
                EditorStage::Done,
                histories,
                succeeded(written_text(args.command, path)),
            ),
            Err(reason) => failed(histories, file_error(args.command, reason@)),
        },
    }
}

/// Whether the editor can wait for this in a call of `command`.
pub open spec fn stage_fits(command: MinimalEditorCommand, stage: EditorStage) -> bool {
    match stage {
        EditorStage::Readable => first_stage(command) == EditorStage::Readable,
        EditorStage::Writable => command != MinimalEditorCommand::View,
        EditorStage::Probe => command == MinimalEditorCommand::Create,
        EditorStage::Read => first_stage(command) == EditorStage::Readable,
        EditorStage::Write => command != MinimalEditorCommand::View,
        EditorStage::Done => true,
    }
}

/// Whether `event` is what the editor waits for.
pub open spec fn answers(stage: EditorStage, event: EditorEvent) -> bool {
    match event {
        EditorEvent::Admitted => stage == EditorStage::Readable || stage == EditorStage::Writable,
        EditorEvent::Refused { .. } => stage == EditorStage::Readable || stage
            == EditorStage::Writable,
        EditorEvent::Probed { .. } => stage == EditorStage::Probe,
        EditorEvent::FileRead { .. } => stage == EditorStage::Read,
        EditorEvent::FileWritten { .. } => stage == EditorStage::Write,
    }
}

/// What the editor waits for once it has asked for `action`.
pub open spec fn stage_for(action: ActionView) -> EditorStage {
    match action {
        ActionView::CheckReadable => EditorStage::Readable,
        ActionView::CheckWritable => EditorStage::Writable,
        ActionView::ProbeFile => EditorStage::Probe,
        ActionView::ReadFile => EditorStage::Read,
        ActionView::WriteFile { .. } => EditorStage::Write,
        ActionView::Succeed { .. } => EditorStage::Done,
        ActionView::Fail { .. } => EditorStage::Done,
    }
}

/// `command` in the words of an error, with the reason.
fn file_failure(command: MinimalEditorCommand, reason: &str) -> (action: EditorAction)
    ensures
        action@ == (ActionView::Fail { error: file_error(command, reason@) }),
{
    let word = match command {
        MinimalEditorCommand::View => "view",
        MinimalEditorCommand::Create => "create",
        MinimalEditorCommand::StrReplace => "str_replace",
        MinimalEditorCommand::Insert => "insert",
        MinimalEditorCommand::UndoEdit => "undo_edit",
    };
    let mut message = concat(word, " failed: ");
    message.append(reason);
    EditorAction::Fail { error: respond(message.as_str()) }
}

/// Whether a command that edits the file's text has its arguments.
fn check_arguments(args: &MinimalEditorArgs) -> (checked: Result<(), FunctionCallError>)
    ensures
        checked is Ok <==> lacking(*args) is None,
        checked matches Err(error) ==> Some(error@) == lacking(*args),
{
    match args.command {
        MinimalEditorCommand::StrReplace => {
            if let Err(error) = require_arg(args.old_str.clone(), "old_str") {
                return Err(error);
            }
            if let Err(error) = require_arg(args.new_str.clone(), "new_str") {
                return Err(error);
            }
            Ok(())
        },
        MinimalEditorCommand::Insert => {
            if args.insert_line.is_none() {
                return Err(respond("insert failed: missing insert_line"));
            }
            if let Err(error) = require_arg(args.new_str.clone(), "new_str") {
                return Err(error);
            }
            Ok(())
        },
        _ => Ok(()),
    }
}

/// What a command that edits makes of the file's text.
fn edit_text(args: &MinimalEditorArgs, content: &str) -> (updated: Result<
    String,
    FunctionCallError,
>)
    requires
        args.command == MinimalEditorCommand::StrReplace || args.command
            == MinimalEditorCommand::Insert,
    ensures
        result_view(updated) == edit(*args, content@),
{
    if let Err(error) = check_arguments(args) {
        return Err(error);
    }
    let new_str = match &args.new_str {
        Some(text) => text.as_str(),
        None => "",
    };
    match args.command {
        MinimalEditorCommand::StrReplace => {
            let old_str = match &args.old_str {
                Some(text) => text.as_str(),
                None => "",
            };
            replace_text(content, old_str, new_str)
        },
        _ => insert_text(content, args.insert_line.unwrap_or(0), new_str),
    }
}

impl EditorSession {
    /// Whether the editor waits for something that the command leads to.
    pub open spec fn well_formed(&self) -> bool {
        stage_fits(self.args.command, self.stage)
    }

    /// The step once `event` has come.
    pub open spec fn next(
        &self,
        histories: Map<Seq<char>, Seq<Seq<char>>>,
        event: EditorEvent,
    ) -> Step {
        step(self.args, self.path@, self.stage, histories, event)
    }

    /// Whether `event` is what the editor waits for.
    pub fn awaits(&self, event: &EditorEvent) -> (yes: bool)
        ensures
            yes == answers(self.stage, *event),
    {
        match event {
            EditorEvent::Admitted => self.stage == EditorStage::Readable || self.stage
                == EditorStage::Writable,
            EditorEvent::Refused { .. } => self.stage == EditorStage::Readable || self.stage
                == EditorStage::Writable,
            EditorEvent::Probed { .. } => self.stage == EditorStage::Probe,
            EditorEvent::FileRead { .. } => self.stage == EditorStage::Read,
            EditorEvent::FileWritten { .. } => self.stage == EditorStage::Write,
        }
    }

    /// Goes on with the call once `event` has come, and says what is to be done.
    pub fn resume(&mut self, undo: &mut UndoStacks, event: EditorEvent) -> (action: EditorAction)
        requires
            old(self).well_formed(),
            old(undo).well_formed(),
            answers(old(self).stage, event),
        ensures
            final(self).args == old(self).args,
            final(self).path == old(self).path,
            final(self).stage == old(self).next(old(undo)@, event).stage,
            final(undo)@ == old(self).next(old(undo)@, event).histories,
            action@ == old(self).next(old(undo)@, event).action,
            final(self).well_formed(),
            final(undo).well_formed(),
            final(self).stage == stage_for(action@),
    {
        match event {
            EditorEvent::Admitted => {
                if self.stage == EditorStage::Writable {
                    self.once_writable(undo)
                } else if self.args.command == MinimalEditorCommand::View {
                    self.stage = EditorStage::Read;
                    EditorAction::ReadFile
                } else {
                    self.stage = EditorStage::Writable;
                    EditorAction::CheckWritable
                }
            },
            EditorEvent::Refused { error } => {
                self.stage = EditorStage::Done;
                EditorAction::Fail { error }
            },
            EditorEvent::Probed { exists } => self.once_probed(undo, exists),
            EditorEvent::FileRead { outcome } => match outcome {
                Ok(content) => self.once_read(undo, content),
                Err(reason) => {
                    self.stage = EditorStage::Done;
                    file_failure(self.args.command, reason.as_str())
                },
            },
            EditorEvent::FileWritten { outcome } => {
                self.stage = EditorStage::Done;
                match outcome {
                    Ok(_) => {
                        let text = match self.args.command {
                            MinimalEditorCommand::Create => concat(
                                "Created file: ",
                                self.path.as_str(),
                            ),
                            MinimalEditorCommand::UndoEdit => concat(
                                "Reverted last edit for: ",
                                self.path.as_str(),
                            ),
                            _ => concat("Edited file: ", self.path.as_str()),
                        };
                        EditorAction::Succeed { text, success: Some(true) }
                    },
                    Err(reason) => file_failure(self.args.command, reason.as_str()),
                }
            },
        }
    }

    /// Goes on once the file may be written.
    fn once_writable(&mut self, undo: &mut UndoStacks) -> (action: EditorAction)
        requires
            old(self).args.command != MinimalEditorCommand::View,
            old(undo).well_formed(),
        ensures
            final(self).args == old(self).args,
            final(self).path == old(self).path,
            (Step { stage: final(self).stage, histories: final(undo)@, action: action@ })
                == once_writable(old(self).args, old(self).path@, old(undo)@),
            final(undo).well_formed(),
    {
        match self.args.command {
            MinimalEditorCommand::Create => {
                self.stage = EditorStage::Probe;
                EditorAction::ProbeFile
            },
            MinimalEditorCommand::UndoEdit => {
                match undo.pop_undo(self.path.as_str()) {
                    Some(previous) => {
                        self.stage = EditorStage::Write;
                        EditorAction::WriteFile { text: previous }
                    },
                    None => {
                        self.stage = EditorStage::Done;
                        EditorAction::Fail {
                            error: respond("undo_edit failed: no previous edit for this file"),
                        }
                    },
                }
            },
            _ => match check_arguments(&self.args) {
                Ok(_) => {
                    self.stage = EditorStage::Read;
                    EditorAction::ReadFile
                },
                Err(error) => {
                    self.stage = EditorStage::Done;
                    EditorAction::Fail { error }
                },
            },
        }
    }

    /// Goes on once it was looked for the file.
    fn once_probed(&mut self, undo: &mut UndoStacks, exists: Option<bool>) -> (action:
        EditorAction)
        requires
            old(undo).well_formed(),
        ensures
            final(self).args == old(self).args,
            final(self).path == old(self).path,
            (Step { stage: final(self).stage, histories: final(undo)@, action: action@ })
                == once_probed(old(self).args, old(self).path@, old(undo)@, exists),
            final(undo).well_formed(),
    {
        if exists.unwrap_or(false) {
            self.stage = EditorStage::Done;
            let message = concat("create failed: file already exists: ", self.path.as_str());
            return EditorAction::Fail { error: respond(message.as_str()) };
        }
        match require_arg(self.args.file_text.clone(), "file_text") {
            Ok(text) => {
                undo.save_undo(self.path.as_str(), String::new());
                self.stage = EditorStage::Write;
                EditorAction::WriteFile { text }
            },
            Err(error) => {
                self.stage = EditorStage::Done;
                EditorAction::Fail { error }
            },
        }
    }

    /// Goes on once the file has been read.
    fn once_read(&mut self, undo: &mut UndoStacks, content: String) -> (action: EditorAction)
        requires
            first_stage(old(self).args.command) == EditorStage::Readable,
            old(undo).well_formed(),
        ensures
            final(self).args == old(self).args,
            final(self).path == old(self).path,
            (Step { stage: final(self).stage, histories: final(undo)@, action: action@ })
                == once_read(old(self).args, old(self).path@, old(undo)@, content@),
            final(undo).well_formed(),
    {
        if self.args.command == MinimalEditorCommand::View {
            self.stage = EditorStage::Done;
            let text = format_view_output(content.as_str(), &self.args.view_range);
            return EditorAction::Succeed { text, success: Some(true) };
        }
        match edit_text(&self.args, content.as_str()) {
            Ok(text) => {
                undo.save_undo(self.path.as_str(), content);
                self.stage = EditorStage::Write;
                EditorAction::WriteFile { text }
            },
            Err(error) => {
                self.stage = EditorStage::Done;
                EditorAction::Fail { error }
            },
        }
    }
}

/// The kinds of tools.
#[derive(Debug, Clone, Copy, PartialEq, Eq, Structural)]
pub enum ToolKind {
    Function,
}

/// The editor tool of the minimal harness.
#[derive(Debug, Clone, Copy, PartialEq, Eq)]
pub struct MinimalStrReplaceEditorHandler;

/// Whether a call may change a file: only one that is known to view does not.
pub open spec fn may_change(payload: EditorPayload) -> bool {
    !(payload matches EditorPayload::Arguments { args } && args.command
        == MinimalEditorCommand::View)
}

impl MinimalStrReplaceEditorHandler {
    /// The editor is a function tool.
    pub fn kind(&self) -> (kind: ToolKind)
        ensures
            kind == ToolKind::Function,
    {
        ToolKind::Function
    }

    /// Whether a call may change a file. A call that cannot be read counts as one that may.
    pub fn is_mutating(&self, payload: &EditorPayload) -> (yes: bool)
        ensures
            yes == may_change(*payload),
    {
        match payload {
            EditorPayload::Arguments { args } => args.command != MinimalEditorCommand::View,
            _ => true,
        }
    }

    /// The arguments of a call.
    pub fn arguments(&self, payload: EditorPayload) -> (args: Result<
        MinimalEditorArgs,
        FunctionCallError,
    >)
        ensures
            args is Ok <==> payload is Arguments,
            args matches Ok(args) ==> payload == (EditorPayload::Arguments { args }),
            args matches Err(error) ==> match payload {
                EditorPayload::Malformed { error: reason } => error == reason,
                _ => error@ == ErrorView::RespondToModel(
                    "str_replace_editor received unsupported payload"@,
                ),
            },
    {
        match payload {
            EditorPayload::Unsupported => Err(
                respond("str_replace_editor received unsupported payload"),
            ),
            EditorPayload::Malformed { error } => Err(error),
            EditorPayload::Arguments { args } => Ok(args),
        }
    }

    /// Begins a call on the file that is displayed as `path`, and says what is to be done first.
    pub fn handle(&self, args: MinimalEditorArgs, path: String) -> (begun: (
        EditorSession,
        EditorAction,
    ))
        ensures
            begun.0.args == args,
            begun.0.path == path,
            begun.0.stage == first_stage(args.command),
            begun.0.well_formed(),
            stage_for(begun.1@) == begun.0.stage,
            begun.1@ is CheckReadable || begun.1@ is CheckWritable,
    {
        match args.command {
            MinimalEditorCommand::View
            | MinimalEditorCommand::StrReplace
            | MinimalEditorCommand::Insert => (
                EditorSession { args, path, stage: EditorStage::Readable },
                EditorAction::CheckReadable,
            ),
            MinimalEditorCommand::Create | MinimalEditorCommand::UndoEdit => (
                EditorSession { args, path, stage: EditorStage::Writable },
                EditorAction::CheckWritable,
            ),
        }
    }
}

} // verus!
