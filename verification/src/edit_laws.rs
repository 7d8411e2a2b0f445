//! What the editor makes of a file's text, in terms of the text, the lines and the arguments.
use vstd::prelude::*;

use crate::editor::{
    inserted, missing, numbered_lines, past_end, range_view, result_view, shown_lines, str_replaced,
    view_output, ErrorView, FunctionCallError,
};
use crate::lines::{joined, lines};
use crate::text::{decimal, match_count};
use crate::text_laws::{
    law_count_is_many_where_two_do_not_overlap, law_count_is_zero_where_nothing_stands,
    law_first_match_is_replaced, law_parts_are_joined_by_line_feeds,
    law_search_finds_the_first_place,
};

verus! {

// ---------------------------------------------------------------------------------------------
// Replacing
// ---------------------------------------------------------------------------------------------

/// A text that stands nowhere is not replaced: the model is told that it was not found.
pub proof fn law_text_that_stands_nowhere_is_refused(
    content: Seq<char>,
    old_str: Seq<char>,
    new_str: Seq<char>,
)
    requires
        forall|j: int|
            0 <= j <= content.len() - old_str.len() ==> #[trigger] content.subrange(
                j,
                j + old_str.len(),
            ) != old_str,
    ensures
        str_replaced(content, old_str, new_str) == Err::<Seq<char>, ErrorView>(
            ErrorView::RespondToModel("str_replace failed: old_str was not found"@),
        ),
{
    law_count_is_zero_where_nothing_stands(content, old_str);
}

/// A text that stands at two places that do not overlap is not replaced: the model is told that it is
/// not unique.
pub proof fn law_text_that_stands_twice_is_refused(
    content: Seq<char>,
    old_str: Seq<char>,
    new_str: Seq<char>,
    first: int,
    second: int,
)
    requires
        0 <= first < second <= content.len() - old_str.len(),
        first + old_str.len() <= second,
        content.subrange(first, first + old_str.len()) == old_str,
        content.subrange(second, second + old_str.len()) == old_str,
    ensures
        str_replaced(content, old_str, new_str) == Err::<Seq<char>, ErrorView>(
            ErrorView::RespondToModel("str_replace failed: old_str is not unique"@),
        ),
{
    law_count_is_many_where_two_do_not_overlap(content, old_str);
}

/// A text that stands at one place, with no other place before it or behind its end, is replaced
/// there, and what stands around it is kept.
pub proof fn law_text_that_stands_once_is_replaced(
    before: Seq<char>,
    old_str: Seq<char>,
    behind: Seq<char>,
    new_str: Seq<char>,
)
    requires
        forall|j: int|
            0 <= j < before.len() ==> #[trigger] (before + old_str + behind).subrange(
                j,
                j + old_str.len(),
            ) != old_str,
        forall|j: int|
            before.len() < j && before.len() + old_str.len() <= j <= before.len() + behind.len()
                ==> #[trigger] (before + old_str + behind).subrange(j, j + old_str.len())
                != old_str,
    ensures
        str_replaced(before + old_str + behind, old_str, new_str) == Ok::<Seq<char>, ErrorView>(
            before + new_str + behind,
        ),
{
    let content = before + old_str + behind;
    let at = before.len() as int;
    assert(content.subrange(at, at + old_str.len()) =~= old_str);
    law_count_is_zero_where_nothing_stands(content, old_str);
    law_count_is_many_where_two_do_not_overlap(content, old_str);
    if match_count(content, old_str, 0) > 1 {
        let (i, j) = choose|i: int, j: int|
            {
                &&& 0 <= i < j <= content.len() - old_str.len()
                &&& i + old_str.len() <= j
                &&& #[trigger] content.subrange(i, i + old_str.len()) == old_str
                &&& #[trigger] content.subrange(j, j + old_str.len()) == old_str
            };
        assert(at <= i);
    }
    law_first_match_is_replaced(before, old_str, behind, new_str);
}

/// Whatever a replacement makes of a text, it keeps all but one place of the old text, and there the
/// new text stands; and the old text stands at no other place that does not overlap.
pub proof fn law_replacement_keeps_what_is_around(
    content: Seq<char>,
    old_str: Seq<char>,
    new_str: Seq<char>,
    updated: Seq<char>,
) -> (at: int)
    requires
        str_replaced(content, old_str, new_str) == Ok::<Seq<char>, ErrorView>(updated),
    ensures
        0 <= at <= content.len() - old_str.len(),
        content.subrange(at, at + old_str.len()) == old_str,
        updated == content.subrange(0, at) + new_str + content.subrange(
            at + old_str.len(),
            content.len() as int,
        ),
        forall|j: int|
            0 <= j <= content.len() - old_str.len() && #[trigger] content.subrange(
                j,
                j + old_str.len(),
            ) == old_str ==> at <= j && (j == at || j < at + old_str.len()),
{
    law_count_is_zero_where_nothing_stands(content, old_str);
    law_count_is_many_where_two_do_not_overlap(content, old_str);
    let at = crate::text::first_match(content, old_str, 0)->Some_0;
    law_search_finds_the_first_place(content, old_str, 0, at);
    assert(crate::text::first_match(content, old_str, 0) == Some(at));
    assert forall|j: int|
        0 <= j <= content.len() - old_str.len() && #[trigger] content.subrange(
            j,
            j + old_str.len(),
        ) == old_str implies at <= j && (j == at || j < at + old_str.len()) by {
        if at < j && at + old_str.len() <= j {
            assert(content.subrange(at, at + old_str.len()) == old_str);
            assert(match_count(content, old_str, 0) > 1);
        }
    }
    at
}

// ---------------------------------------------------------------------------------------------
// Inserting
// ---------------------------------------------------------------------------------------------

/// What comes out of an insert: the lines before the place, the new text whole and as it was given,
/// and the lines behind the place, with line feeds between them; a line feed at the end is kept.
pub proof fn law_inserted_text_stands_between_the_lines(
    content: Seq<char>,
    insert_line: int,
    new_str: Seq<char>,
)
    requires
        0 <= insert_line <= lines(content).len(),
    ensures
        ({
            let count = lines(content).len() as int;
            let before = if insert_line == 0 {
                Seq::<char>::empty()
            } else {
                joined(lines(content).subrange(0, insert_line)).push('\n')
            };
            let behind = if insert_line == count {
                Seq::<char>::empty()
            } else {
                seq!['\n'] + joined(lines(content).subrange(insert_line, count))
            };
            let end = if content.len() > 0 && content[content.len() - 1] == '\n' {
                seq!['\n']
            } else {
                Seq::<char>::empty()
            };
            inserted(content, insert_line, new_str) == before + new_str + behind + end
        }),
{
    let all = lines(content);
    let count = all.len() as int;
    let front = all.subrange(0, insert_line);
    let back = all.subrange(insert_line, count);
    let one = seq![new_str];
    let before = if insert_line == 0 {
        Seq::<char>::empty()
    } else {
        joined(front).push('\n')
    };
    let behind = if insert_line == count {
        Seq::<char>::empty()
    } else {
        seq!['\n'] + joined(back)
    };
    assert(all.insert(insert_line, new_str) =~= front + (one + back));
    law_parts_are_joined_by_line_feeds(one, back);
    law_parts_are_joined_by_line_feeds(front, one + back);
    assert(one[0] == new_str);
    if back.len() == 0 {
        assert(one + back =~= one);
    }
    assert(joined(one + back) =~= new_str + behind);
    if front.len() == 0 {
        assert(front + (one + back) =~= one + back);
        assert(before + new_str + behind =~= new_str + behind);
    }
    assert(joined(all.insert(insert_line, new_str)) =~= before + new_str + behind);
    if content.len() > 0 && content[content.len() - 1] == '\n' {
        assert((before + new_str + behind).push('\n') =~= before + new_str + behind + seq!['\n']);
    } else {
        assert(before + new_str + behind + Seq::<char>::empty() =~= before + new_str + behind);
    }
}

/// What the model is told of a line that the file does not have.
pub proof fn law_line_past_the_end_is_told(insert_line: nat)
    ensures
        past_end(insert_line) == ErrorView::RespondToModel(
            "insert failed: insert_line "@ + decimal(insert_line) + " is past end of file"@,
        ),
{
}

// ---------------------------------------------------------------------------------------------
// Viewing
// ---------------------------------------------------------------------------------------------

/// A view of the lines from number `first` to number `last` shows exactly these, each behind its
/// number and a tab. The range may begin with zero, which counts as one, and may end behind the last
/// line; it shows nothing where it ends before it begins.
pub proof fn law_view_shows_the_lines_of_the_range(
    content: Seq<char>,
    first: usize,
    last: usize,
    parts: Seq<Seq<char>>,
)
    requires
        ({
            let begin: int = if first == 0 { 1 } else { first as int };
            let end: int = if last <= lines(content).len() {
                last as int
            } else {
                lines(content).len() as int
            };
            &&& parts.len() == if begin <= end { end - begin + 1 } else { 0 }
            &&& forall|k: int|
                0 <= k < parts.len() ==> #[trigger] parts[k] == decimal((begin + k) as nat).push(
                    '\t',
                ) + lines(content)[begin + k - 1]
        }),
    ensures
        view_output(content, Some(seq![first, last])) == joined(parts),
{
    let (start, stop) = shown_lines(Some(seq![first, last]), lines(content).len());
    assert(parts =~= numbered_lines(lines(content), start, stop));
}

/// A view from number `first` on shows all lines from there.
pub proof fn law_view_shows_the_lines_from_a_number_on(
    content: Seq<char>,
    first: usize,
    parts: Seq<Seq<char>>,
)
    requires
        ({
            let begin: int = if first == 0 { 1 } else { first as int };
            let end = lines(content).len() as int;
            &&& parts.len() == if begin <= end { end - begin + 1 } else { 0 }
            &&& forall|k: int|
                0 <= k < parts.len() ==> #[trigger] parts[k] == decimal((begin + k) as nat).push(
                    '\t',
                ) + lines(content)[begin + k - 1]
        }),
    ensures
        view_output(content, Some(seq![first])) == joined(parts),
{
    let (start, stop) = shown_lines(Some(seq![first]), lines(content).len());
    assert(parts =~= numbered_lines(lines(content), start, stop));
}

/// A view without a range, or with one of neither one nor two numbers, shows every line.
pub proof fn law_view_shows_every_line(
    content: Seq<char>,
    view_range: Option<Seq<usize>>,
    parts: Seq<Seq<char>>,
)
    requires
        view_range is None || view_range->Some_0.len() == 0 || view_range->Some_0.len() > 2,
        parts.len() == lines(content).len(),
        forall|k: int|
            0 <= k < parts.len() ==> #[trigger] parts[k] == decimal((k + 1) as nat).push('\t')
                + lines(content)[k],
    ensures
        view_output(content, view_range) == joined(parts),
{
    let (start, stop) = shown_lines(view_range, lines(content).len());
    assert(parts =~= numbered_lines(lines(content), start, stop));
}

/// A range argument is the numbers that it holds.
pub proof fn law_range_is_its_numbers(range: Vec<usize>)
    ensures
        range_view(Some(range)) == Some(range@),
        range_view(None) is None,
{
}

// ---------------------------------------------------------------------------------------------
// Results
// ---------------------------------------------------------------------------------------------

/// A result says the text that it holds, or the error; an error says its message, and to whom.
pub proof fn law_result_says_what_it_holds(text: String, message: String)
    ensures
        result_view(Ok(text)) == Ok::<Seq<char>, ErrorView>(text@),
        result_view(Err(FunctionCallError::RespondToModel(message))) == Err::<
            Seq<char>,
            ErrorView,
        >(ErrorView::RespondToModel(message@)),
        result_view(Err(FunctionCallError::Fatal(message))) == Err::<Seq<char>, ErrorView>(
            ErrorView::Fatal(message@),
        ),
{
}

/// What the model is told of an argument that is missing.
pub proof fn law_missing_argument_is_told(name: Seq<char>)
    ensures
        missing(name) == ErrorView::RespondToModel("missing required "@ + name),
{
}

} // verus!
