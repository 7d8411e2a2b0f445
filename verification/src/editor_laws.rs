//! What holds of every call of the editor.
use vstd::prelude::*;

use crate::editor::{inserted, str_replaced, MinimalEditorArgs, MinimalEditorCommand};
use crate::editor_session::{
    answers, first_stage, once_writable, stage_fits, stage_for, step, ActionView, EditorEvent,
    EditorStage, Step,
};
use crate::lines::{
    joined, lemma_line_length, lemma_line_length_bounds, line_length, lines,
    without_carriage_return,
};
use crate::text::{first_match, lemma_first_match, match_count};

verus! {

/// What the file held when an edit was decided: what the edit read, or nothing where it creates the
/// file.
pub open spec fn content_before(event: EditorEvent) -> Seq<char> {
    match event {
        EditorEvent::FileRead { outcome: Ok(content) } => content@,
        _ => Seq::empty(),
    }
}

/// What an edit does a later undo takes back, whatever came of other files in between: once the history
/// of the file is again what the edit left, the undo writes what the file held when the edit read it
/// (nothing, where the edit created the file), and the history is as it was before the edit.
pub proof fn law_later_undo_takes_back_the_edit(
    args: MinimalEditorArgs,
    path: Seq<char>,
    stage: EditorStage,
    histories: Map<Seq<char>, Seq<Seq<char>>>,
    event: EditorEvent,
    undo: MinimalEditorArgs,
    later: Map<Seq<char>, Seq<Seq<char>>>,
)
    requires
        stage_fits(args.command, stage),
        answers(stage, event),
        args.command != MinimalEditorCommand::UndoEdit,
        step(args, path, stage, histories, event).action is WriteFile,
        undo.command == MinimalEditorCommand::UndoEdit,
        later.contains_key(path),
        later[path] == step(args, path, stage, histories, event).histories[path],
    ensures
        once_writable(undo, path, later) == (Step {
            stage: EditorStage::Write,
            histories: later.insert(path, histories[path]),
            action: ActionView::WriteFile { text: content_before(event) },
        }),
{
    let content = content_before(event);
    assert(later[path] == histories[path].push(content));
    assert(histories[path].push(content).drop_last() =~= histories[path]);
}

/// What an edit does an undo takes back: the undo of the same file writes what the file held when the
/// edit read it (nothing, where the edit created the file), and leaves the histories as they were
/// before the edit.
pub proof fn law_undo_takes_back_the_edit(
    args: MinimalEditorArgs,
    path: Seq<char>,
    stage: EditorStage,
    histories: Map<Seq<char>, Seq<Seq<char>>>,
    event: EditorEvent,
    undo: MinimalEditorArgs,
)
    requires
        stage_fits(args.command, stage),
        answers(stage, event),
        args.command != MinimalEditorCommand::UndoEdit,
        step(args, path, stage, histories, event).action is WriteFile,
        undo.command == MinimalEditorCommand::UndoEdit,
        histories.contains_key(path),
    ensures
        once_writable(undo, path, step(args, path, stage, histories, event).histories) == (Step {
            stage: EditorStage::Write,
            histories,
            action: ActionView::WriteFile { text: content_before(event) },
        }),
{
    let edited = step(args, path, stage, histories, event);
    law_later_undo_takes_back_the_edit(
        args,
        path,
        stage,
        histories,
        event,
        undo,
        edited.histories,
    );
    assert(edited.histories.insert(path, histories[path]) =~= histories);
}

/// A call that views a file asks for no write, and changes no history.
pub proof fn law_view_changes_nothing(
    args: MinimalEditorArgs,
    path: Seq<char>,
    stage: EditorStage,
    histories: Map<Seq<char>, Seq<Seq<char>>>,
    event: EditorEvent,
)
    requires
        stage_fits(args.command, stage),
        answers(stage, event),
        args.command == MinimalEditorCommand::View,
    ensures
        !(step(args, path, stage, histories, event).action is WriteFile),
        step(args, path, stage, histories, event).histories == histories,
{
}

/// A history changes only together with a write, and only the history of the file of the call.
pub proof fn law_history_changes_only_with_a_write(
    args: MinimalEditorArgs,
    path: Seq<char>,
    stage: EditorStage,
    histories: Map<Seq<char>, Seq<Seq<char>>>,
    event: EditorEvent,
    other: Seq<char>,
)
    requires
        stage_fits(args.command, stage),
        answers(stage, event),
    ensures
        !(step(args, path, stage, histories, event).action is WriteFile) ==> step(
            args,
            path,
            stage,
            histories,
            event,
        ).histories == histories,
        other != path ==> step(args, path, stage, histories, event).histories[other]
            == histories[other],
{
}

/// A refused permission ends the call with the reason, and nothing is done with the file.
pub proof fn law_refusal_ends_the_call(
    args: MinimalEditorArgs,
    path: Seq<char>,
    stage: EditorStage,
    histories: Map<Seq<char>, Seq<Seq<char>>>,
    event: EditorEvent,
)
    requires
        event is Refused,
    ensures
        step(args, path, stage, histories, event) == (Step {
            stage: EditorStage::Done,
            histories,
            action: ActionView::Fail { error: event->Refused_error@ },
        }),
{
}

/// Whether the editor has the permission to write the file once it waits for this.
pub open spec fn may_write(command: MinimalEditorCommand, stage: EditorStage) -> bool {
    ||| stage == EditorStage::Probe
    ||| stage == EditorStage::Write
    ||| stage == EditorStage::Read && command != MinimalEditorCommand::View
}

/// The permission to write comes only from being admitted when it was asked for, and a write is asked
/// for only with it.
pub proof fn law_no_write_without_permission(
    args: MinimalEditorArgs,
    path: Seq<char>,
    stage: EditorStage,
    histories: Map<Seq<char>, Seq<Seq<char>>>,
    event: EditorEvent,
)
    requires
        stage_fits(args.command, stage),
        answers(stage, event),
    ensures
        !may_write(args.command, first_stage(args.command)),
        may_write(args.command, step(args, path, stage, histories, event).stage) ==> may_write(
            args.command,
            stage,
        ) || (stage == EditorStage::Writable && event is Admitted),
        step(args, path, stage, histories, event).action is WriteFile ==> may_write(
            args.command,
            stage,
        ) || (stage == EditorStage::Writable && event is Admitted),
{
}

/// Whether the editor has the permission to read the file once it waits for this.
pub open spec fn may_read(command: MinimalEditorCommand, stage: EditorStage) -> bool {
    &&& first_stage(command) == EditorStage::Readable
    &&& stage == EditorStage::Writable || stage == EditorStage::Read || stage == EditorStage::Write
}

/// The permission to read comes only from being admitted when it was asked for, and a read is asked
/// for only with it.
pub proof fn law_no_read_without_permission(
    args: MinimalEditorArgs,
    path: Seq<char>,
    stage: EditorStage,
    histories: Map<Seq<char>, Seq<Seq<char>>>,
    event: EditorEvent,
)
    requires
        stage_fits(args.command, stage),
        answers(stage, event),
    ensures
        !may_read(args.command, first_stage(args.command)),
        may_read(args.command, step(args, path, stage, histories, event).stage) ==> may_read(
            args.command,
            stage,
        ) || (stage == EditorStage::Readable && event is Admitted),
        step(args, path, stage, histories, event).action is ReadFile ==> may_read(
            args.command,
            stage,
        ) || (stage == EditorStage::Readable && event is Admitted),
{
}

/// Whoever performs what the editor asks for can always hand back what came of it: the editor waits
/// for the outcome of just that action, in a way that fits the command.
pub proof fn law_editor_waits_for_what_it_asked(
    args: MinimalEditorArgs,
    path: Seq<char>,
    stage: EditorStage,
    histories: Map<Seq<char>, Seq<Seq<char>>>,
    event: EditorEvent,
)
    requires
        stage_fits(args.command, stage),
        answers(stage, event),
    ensures
        stage_fits(args.command, step(args, path, stage, histories, event).stage),
        stage_for(step(args, path, stage, histories, event).action) == step(
            args,
            path,
            stage,
            histories,
            event,
        ).stage,
{
}

/// How many steps a call can still take from here.
pub open spec fn steps_left(stage: EditorStage) -> nat {
    match stage {
        EditorStage::Readable => 4,
        EditorStage::Writable => 3,
        EditorStage::Probe => 2,
        EditorStage::Read => 2,
        EditorStage::Write => 1,
        EditorStage::Done => 0,
    }
}

/// Every call comes to an end.
pub proof fn law_every_call_ends(
    args: MinimalEditorArgs,
    path: Seq<char>,
    stage: EditorStage,
    histories: Map<Seq<char>, Seq<Seq<char>>>,
    event: EditorEvent,
)
    requires
        stage_fits(args.command, stage),
        answers(stage, event),
    ensures
        steps_left(step(args, path, stage, histories, event).stage) < steps_left(stage),
{
}

/// A replacement changes the only match and nothing around it.
pub proof fn law_replacement_changes_only_the_match(
    content: Seq<char>,
    old_str: Seq<char>,
    new_str: Seq<char>,
) -> (parts: (Seq<char>, Seq<char>))
    requires
        match_count(content, old_str, 0) == 1,
    ensures
        content == parts.0 + old_str + parts.1,
        str_replaced(content, old_str, new_str) == Ok::<Seq<char>, crate::editor::ErrorView>(
            parts.0 + new_str + parts.1,
        ),
{
    lemma_first_match(content, old_str, 0);
    let at = first_match(content, old_str, 0)->Some_0;
    let before = content.subrange(0, at);
    let behind = content.subrange(at + old_str.len(), content.len() as int);
    assert(content =~= before + content.subrange(at, at + old_str.len()) + behind);
    (before, behind)
}

/// Putting the old text in the place of itself changes nothing.
pub proof fn law_replacing_a_text_by_itself_changes_nothing(content: Seq<char>, old_str: Seq<char>)
    requires
        match_count(content, old_str, 0) == 1,
    ensures
        str_replaced(content, old_str, old_str) == Ok::<Seq<char>, crate::editor::ErrorView>(
            content,
        ),
{
    let (before, behind) = law_replacement_changes_only_the_match(content, old_str, old_str);
}

// ---------------------------------------------------------------------------------------------
// Lines
// ---------------------------------------------------------------------------------------------

/// Whether a text holds no line feed.
pub open spec fn one_line(s: Seq<char>) -> bool {
    forall|i: int| 0 <= i < s.len() ==> s[i] != '\n'
}

/// Whether a text ends with a carriage return.
pub open spec fn ends_with_return(s: Seq<char>) -> bool {
    s.len() > 0 && s.last() == '\r'
}

/// Whether a text ends with a line feed.
pub open spec fn ends_with_newline(s: Seq<char>) -> bool {
    s.len() > 0 && s.last() == '\n'
}

/// What the lines of a text are like: none holds a line feed, and the last is empty only where a line
/// feed ends it.
proof fn lemma_lines_are_lines(s: Seq<char>)
    ensures
        forall|i: int| 0 <= i < lines(s).len() ==> one_line(#[trigger] lines(s)[i]),
        s.len() > 0 ==> lines(s).len() > 0,
        s.len() > 0 && !ends_with_newline(s) ==> lines(s).last().len() > 0,
    decreases s.len(),
{
    let length = line_length(s) as int;
    lemma_line_length_bounds(s);
    if s.len() > 0 && length < s.len() {
        let first = without_carriage_return(s.subrange(0, length));
        let rest = s.subrange(length + 1, s.len() as int);
        lemma_lines_are_lines(rest);
        assert(one_line(first));
        assert forall|i: int| 0 <= i < lines(s).len() implies one_line(#[trigger] lines(s)[i]) by {
            if i > 0 {
                assert(lines(s)[i] == lines(rest)[i - 1]);
            }
        }
        if !ends_with_newline(s) {
            assert(rest.len() > 0);
            assert(rest.last() == s.last());
            assert(lines(s).last() == lines(rest).last());
        }
    }
}

/// The parts joined, seen from the first part.
proof fn lemma_joined_from_front(parts: Seq<Seq<char>>)
    requires
        parts.len() > 1,
    ensures
        joined(parts) == parts[0].push('\n') + joined(parts.subrange(1, parts.len() as int)),
    decreases parts.len(),
{
    let rest = parts.subrange(1, parts.len() as int);
    if parts.len() == 2 {
        assert(parts.drop_last() =~= seq![parts[0]]);
        assert(joined(parts.drop_last()) == parts[0]);
        assert(joined(parts) == parts[0] + seq!['\n'] + parts[1]);
        assert(joined(parts) =~= parts[0].push('\n') + parts[1]);
        assert(rest =~= seq![parts[1]]);
    } else {
        let front = parts.drop_last();
        lemma_joined_from_front(front);
        assert(front.subrange(1, front.len() as int) =~= rest.drop_last());
        assert(joined(parts) =~= parts[0].push('\n') + (joined(rest.drop_last()) + seq!['\n']
            + parts.last()));
        assert(rest.last() == parts.last());
    }
}

/// Lines that are joined are the lines of what comes out, as long as no carriage return comes to stand
/// before a line feed and the last line can be seen.
proof fn lemma_lines_of_joined(parts: Seq<Seq<char>>, newline: bool)
    requires
        parts.len() > 0,
        forall|i: int| 0 <= i < parts.len() ==> one_line(#[trigger] parts[i]),
        forall|i: int|
            0 <= i < parts.len() && ends_with_return(#[trigger] parts[i]) ==> i == parts.len() - 1
                && !newline,
        newline || parts.last().len() > 0,
    ensures
        lines(
            if newline {
                joined(parts).push('\n')
            } else {
                joined(parts)
            },
        ) == parts,
    decreases parts.len(),
{
    let text = if newline {
        joined(parts).push('\n')
    } else {
        joined(parts)
    };
    let first = parts[0];
    assert(one_line(first));
    if parts.len() == 1 {
        if newline {
            lemma_line_length(text, first.len() as int);
            assert(text.subrange(0, first.len() as int) =~= first);
            assert(!ends_with_return(parts[0]));
            assert(text.subrange(first.len() as int + 1, text.len() as int) =~= Seq::empty());
            assert(lines(Seq::<char>::empty()) =~= Seq::empty());
            assert(joined(parts) == first);
            assert(lines(text) == seq![first] + lines(Seq::<char>::empty()));
            assert(lines(text) =~= parts);
        } else {
            lemma_line_length(text, text.len() as int);
            assert(lines(text) =~= parts);
        }
    } else {
        let rest = parts.subrange(1, parts.len() as int);
        lemma_joined_from_front(parts);
        let behind = if newline {
            joined(rest).push('\n')
        } else {
            joined(rest)
        };
        assert(text =~= first.push('\n') + behind);
        assert(text[first.len() as int] == '\n');
        assert forall|i: int| 0 <= i < first.len() implies text[i] != '\n' by {
            assert(text[i] == first[i]);
        }
        lemma_line_length(text, first.len() as int);
        assert(text.subrange(0, first.len() as int) =~= first);
        assert(text.subrange(first.len() as int + 1, text.len() as int) =~= behind);
        assert(!ends_with_return(parts[0]));
        assert forall|i: int| 0 <= i < rest.len() implies one_line(#[trigger] rest[i]) by {
            assert(rest[i] == parts[i + 1]);
        }
        assert forall|i: int| 0 <= i < rest.len() && ends_with_return(#[trigger] rest[i]) implies i
            == rest.len() - 1 && !newline by {
            assert(rest[i] == parts[i + 1]);
        }
        assert(rest.last() == parts.last());
        lemma_lines_of_joined(rest, newline);
        assert(lines(text) =~= seq![first] + rest);
        assert(lines(text) =~= parts);
    }
}

/// Inserting a line adds just that line, where it was asked for. It has to be one line; no line of the
/// outcome may end with a carriage return that a line feed follows, which would be read as part of the
/// line ending; and a line at the very end can be seen only where it is not empty or is ended.
pub proof fn law_insert_adds_one_line(content: Seq<char>, insert_line: int, new_str: Seq<char>)
    requires
        0 <= insert_line <= lines(content).len(),
        one_line(new_str),
        forall|i: int|
            0 <= i <= lines(content).len() && ends_with_return(
                #[trigger] lines(content).insert(insert_line, new_str)[i],
            ) ==> i == lines(content).len() && !ends_with_newline(content),
        insert_line == lines(content).len() && !ends_with_newline(content) ==> new_str.len() > 0,
    ensures
        lines(inserted(content, insert_line, new_str)) == lines(content).insert(
            insert_line,
            new_str,
        ),
{
    let parts = lines(content).insert(insert_line, new_str);
    lemma_lines_are_lines(content);
    assert forall|i: int| 0 <= i < parts.len() implies one_line(#[trigger] parts[i]) by {
        if i < insert_line {
            assert(parts[i] == lines(content)[i]);
        } else if i > insert_line {
            assert(parts[i] == lines(content)[i - 1]);
        }
    }
    if !ends_with_newline(content) && insert_line < lines(content).len() {
        assert(content.len() > 0);
        assert(parts.last() == lines(content).last());
    }
    lemma_lines_of_joined(parts, ends_with_newline(content));
}

} // verus!
