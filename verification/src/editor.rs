//! The editor tool: its arguments, and what it makes of a file's text.
use vstd::prelude::*;
use vstd::string::StringExecFns;

use crate::lines::{join_lines, joined, lines, split_lines, texts};
use crate::text::{
    concat, count_matches, decimal, decimal_text, match_count, replace_first, replaced_first,
    MatchCount,
};

verus! {

/// Why a call of the editor failed.
#[derive(Debug, PartialEq, Eq)]
pub enum FunctionCallError {
    /// The model is told.
    RespondToModel(String),
    /// The turn cannot go on.
    Fatal(String),
}

/// What a [`FunctionCallError`] says.
pub enum ErrorView {
    RespondToModel(Seq<char>),
    Fatal(Seq<char>),
}

impl FunctionCallError {
    /// What the error says.
    pub open spec fn view(&self) -> ErrorView {
        match self {
            FunctionCallError::RespondToModel(message) => ErrorView::RespondToModel(message@),
            FunctionCallError::Fatal(message) => ErrorView::Fatal(message@),
        }
    }
}

/// An error of which the model is told.
pub fn respond(message: &str) -> (error: FunctionCallError)
    ensures
        error@ == ErrorView::RespondToModel(message@),
{
    FunctionCallError::RespondToModel(message.to_owned())
}

/// What the editor can be asked to do.
#[derive(Debug, Clone, Copy, PartialEq, Eq, Structural)]
pub enum MinimalEditorCommand {
    View,
    Create,
    StrReplace,
    Insert,
    UndoEdit,
}

/// The arguments of a call of the editor.
#[derive(Debug, PartialEq, Eq)]
pub struct MinimalEditorArgs {
    pub command: MinimalEditorCommand,
    pub path: String,
    pub view_range: Option<Vec<usize>>,
    pub file_text: Option<String>,
    pub old_str: Option<String>,
    pub new_str: Option<String>,
    pub insert_line: Option<usize>,
}

/// The error that an argument is missing.
pub open spec fn missing(name: Seq<char>) -> ErrorView {
    ErrorView::RespondToModel("missing required "@ + name)
}

/// The value of an argument that the command cannot do without.
pub fn require_arg(value: Option<String>, name: &str) -> (argument: Result<
    String,
    FunctionCallError,
>)
    ensures
        argument is Ok <==> value is Some,
        argument matches Ok(text) ==> value == Some(text),
        argument matches Err(error) ==> error@ == missing(name@),
{
    match value {
        Some(text) => Ok(text),
        None => {
            let message = concat("missing required ", name);
            Err(respond(message.as_str()))
        },
    }
}

// ---------------------------------------------------------------------------------------------
// Viewing
// ---------------------------------------------------------------------------------------------

/// The line at `index`, with its number in front.
pub open spec fn numbered(index: int, line: Seq<char>) -> Seq<char> {
    decimal((index + 1) as nat).push('\t') + line
}

/// Which of `count` lines are shown: those from the first to before the second. A range of one or two
/// numbers gives the number of the first line, and that of the last; any other range shows all.
pub open spec fn shown_lines(view_range: Option<Seq<usize>>, count: nat) -> (int, int) {
    match view_range {
        Some(range) => if range.len() == 2 {
            (first_index(range[0]), if range[1] <= count { range[1] as int } else { count as int })
        } else if range.len() == 1 {
            (first_index(range[0]), count as int)
        } else {
            (0, count as int)
        },
        None => (0, count as int),
    }
}

/// The index of the line with the given number; zero counts as one.
pub open spec fn first_index(number: usize) -> int {
    if number == 0 {
        0
    } else {
        number - 1
    }
}

/// The lines from `start` to before `end`, each with its number.
pub open spec fn numbered_lines(all: Seq<Seq<char>>, start: int, end: int) -> Seq<Seq<char>> {
    Seq::new(
        if start < end {
            (end - start) as nat
        } else {
            0
        },
        |k: int| numbered(start + k, all[start + k]),
    )
}

/// What the editor shows of a file.
pub open spec fn view_output(content: Seq<char>, view_range: Option<Seq<usize>>) -> Seq<char> {
    let all = lines(content);
    let (start, end) = shown_lines(view_range, all.len());
    joined(numbered_lines(all, start, end))
}

/// What a range argument holds.
pub open spec fn range_view(view_range: Option<Vec<usize>>) -> Option<Seq<usize>> {
    match view_range {
        Some(range) => Some(range@),
        None => None,
    }
}

/// What the editor shows of a file: the lines of the range, each behind its number and a tab.
pub fn format_view_output(content: &str, view_range: &Option<Vec<usize>>) -> (out: String)
    ensures
        out@ == view_output(content@, range_view(*view_range)),
{
    let all = split_lines(content);
    let count: usize = all.len();
    let (start, end): (usize, usize) = match view_range {
        Some(range) => {
            if range.len() == 2 {
                let last: usize = if range[1] <= count {
                    range[1]
                } else {
                    count
                };
                (range[0].saturating_sub(1), last)
            } else if range.len() == 1 {
                (range[0].saturating_sub(1), count)
            } else {
                (0, count)
            }
        },
        None => (0, count),
    };
    let ghost whole = lines(content@);
    let mut shown: Vec<String> = Vec::new();
    let mut index: usize = start;
    while index < end
        invariant
            start <= index,
            index == start || index <= end,
            end <= count == all@.len(),
            whole == texts(all@),
            texts(shown@) =~= numbered_lines(whole, start as int, index as int),
        decreases end - index,
    {
        let mut line = decimal_text(index + 1);
        line.push('\t');
        line.append(all[index].as_str());
        assert(whole[index as int] == all@[index as int]@);
        let ghost before = shown@;
        shown.push(line);
        assert(texts(shown@) =~= texts(before).push(line@));
        index += 1;
    }
    assert(texts(shown@) =~= numbered_lines(whole, start as int, end as int));
    join_lines(&shown)
}

// ---------------------------------------------------------------------------------------------
// Inserting
// ---------------------------------------------------------------------------------------------

/// The text with a new line before the line at `insert_line`, and the line ending at its end kept.
pub open spec fn inserted(content: Seq<char>, insert_line: int, new_str: Seq<char>) -> Seq<char> {
    let text = joined(lines(content).insert(insert_line, new_str));
    if content.len() > 0 && content.last() == '\n' {
        text.push('\n')
    } else {
        text
    }
}

/// The error that there is no such line to insert at.
pub open spec fn past_end(insert_line: nat) -> ErrorView {
    ErrorView::RespondToModel(
        "insert failed: insert_line "@ + decimal(insert_line) + " is past end of file"@,
    )
}

/// The text with `new_str` behind the first `insert_line` lines. It fails where there are fewer.
pub fn insert_text(content: &str, insert_line: usize, new_str: &str) -> (updated: Result<
    String,
    FunctionCallError,
>)
    ensures
        updated is Ok <==> insert_line <= lines(content@).len(),
        updated matches Ok(text) ==> text@ == inserted(content@, insert_line as int, new_str@),
        updated matches Err(error) ==> error@ == past_end(insert_line as nat),
{
    let mut all = split_lines(content);
    let ghost whole = all@;
    if insert_line > all.len() {
        let number = decimal_text(insert_line);
        let mut message = concat("insert failed: insert_line ", number.as_str());
        message.append(" is past end of file");
        return Err(respond(message.as_str()));
    }
    let line = new_str.to_owned();
    all.insert(insert_line, line);
    assert(texts(all@) =~= texts(whole).insert(insert_line as int, new_str@));
    let mut updated = join_lines(&all);
    if ends_with_newline(content) {
        updated.push('\n');
    }
    Ok(updated)
}

/// Whether a text ends with a line feed.
fn ends_with_newline(s: &str) -> (yes: bool)
    ensures
        yes == (s@.len() > 0 && s@.last() == '\n'),
{
    let chars = crate::text::chars_of(s);
    chars.len() > 0 && chars[chars.len() - 1] == '\n'
}

// ---------------------------------------------------------------------------------------------
// Replacing
// ---------------------------------------------------------------------------------------------

/// The text with `new_str` in place of `old_str`, which has to match exactly once; or why not.
pub open spec fn str_replaced(
    content: Seq<char>,
    old_str: Seq<char>,
    new_str: Seq<char>,
) -> Result<Seq<char>, ErrorView> {
    let matches = match_count(content, old_str, 0);
    if matches == 0 {
        Err(ErrorView::RespondToModel("str_replace failed: old_str was not found"@))
    } else if matches > 1 {
        Err(ErrorView::RespondToModel("str_replace failed: old_str is not unique"@))
    } else {
        Ok(replaced_first(content, old_str, new_str))
    }
}

/// What a text or an error says.
pub open spec fn result_view(result: Result<String, FunctionCallError>) -> Result<
    Seq<char>,
    ErrorView,
> {
    match result {
        Ok(text) => Ok(text@),
        Err(error) => Err(error@),
    }
}

/// The text with `new_str` in place of the only match of `old_str`.
pub fn replace_text(content: &str, old_str: &str, new_str: &str) -> (updated: Result<
    String,
    FunctionCallError,
>)
    ensures
        result_view(updated) == str_replaced(content@, old_str@, new_str@),
{
    match count_matches(content, old_str) {
        MatchCount::Zero => Err(respond("str_replace failed: old_str was not found")),
        MatchCount::Many => Err(respond("str_replace failed: old_str is not unique")),
        MatchCount::One => Ok(replace_first(content, old_str, new_str)),
    }
}

} // verus!
