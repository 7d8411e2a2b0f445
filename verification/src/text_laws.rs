//! What holds of every text: searching, replacing, trimming, lines and numbers, each in terms of the
//! characters.
use vstd::prelude::*;

use crate::lines::{
    joined, lemma_line_length, lemma_line_length_bounds, line_length, lines, newlines_normalized,
    texts,
};
use crate::text::{
    all_white_space, ascii_lower, ascii_lowered, contains_text, decimal, first_match, is_white_space,
    lemma_first_match, lemma_trimmed_around, match_count, match_step, occurs_at, replaced_first,
    starts_with, trimmed,
};

verus! {

// ---------------------------------------------------------------------------------------------
// Searching
// ---------------------------------------------------------------------------------------------

/// A pattern stands at a position exactly where each of its characters stands at its place.
pub proof fn law_occurrence_is_character_by_character(s: Seq<char>, pattern: Seq<char>, at: int)
    ensures
        occurs_at(s, pattern, at) <==> 0 <= at && at + pattern.len() <= s.len() && forall|i: int|
            0 <= i < pattern.len() ==> s[at + i] == #[trigger] pattern[i],
{
    if 0 <= at && at + pattern.len() <= s.len() {
        let part = s.subrange(at, at + pattern.len());
        if part == pattern {
            assert forall|i: int| 0 <= i < pattern.len() implies s[at + i]
                == #[trigger] pattern[i] by {
                assert(part[i] == s[at + i]);
            }
        }
        if forall|i: int| 0 <= i < pattern.len() ==> s[at + i] == #[trigger] pattern[i] {
            assert(part =~= pattern);
        }
    }
}

/// A text starts with another exactly where it is the other with something behind it.
pub proof fn law_prefix_is_what_comes_first(s: Seq<char>, prefix: Seq<char>)
    ensures
        starts_with(s, prefix) <==> exists|rest: Seq<char>| s == #[trigger] (prefix + rest),
{
    if starts_with(s, prefix) {
        let rest = s.subrange(prefix.len() as int, s.len() as int);
        assert(s =~= prefix + rest);
    }
    if exists|rest: Seq<char>| s == #[trigger] (prefix + rest) {
        let rest = choose|rest: Seq<char>| s == #[trigger] (prefix + rest);
        assert(s.subrange(0, prefix.len() as int) =~= prefix);
    }
}

/// A text contains another exactly where it is the other with something around it.
pub proof fn law_containing_is_having_parts_around(s: Seq<char>, pattern: Seq<char>)
    ensures
        contains_text(s, pattern) <==> exists|before: Seq<char>, behind: Seq<char>|
            s == #[trigger] (before + pattern + behind),
{
    if contains_text(s, pattern) {
        let at = choose|at: int| occurs_at(s, pattern, at);
        let before = s.subrange(0, at);
        let behind = s.subrange(at + pattern.len(), s.len() as int);
        assert(s =~= before + s.subrange(at, at + pattern.len()) + behind);
        assert(s == before + pattern + behind);
    }
    if exists|before: Seq<char>, behind: Seq<char>| s == #[trigger] (before + pattern + behind) {
        let (before, behind) = choose|before: Seq<char>, behind: Seq<char>|
            s == #[trigger] (before + pattern + behind);
        assert(s.subrange(before.len() as int, (before.len() + pattern.len()) as int) =~= pattern);
        assert(occurs_at(s, pattern, before.len() as int));
    }
}

/// A search finds the first place from where it starts at which each character of the pattern stands,
/// and nothing exactly where there is no such place.
pub proof fn law_search_finds_the_first_place(s: Seq<char>, pattern: Seq<char>, from: int, at: int)
    requires
        0 <= from,
    ensures
        first_match(s, pattern, from) == Some(at) <==> {
            &&& from <= at <= s.len() - pattern.len()
            &&& s.subrange(at, at + pattern.len()) == pattern
            &&& forall|j: int|
                from <= j < at ==> #[trigger] s.subrange(j, j + pattern.len()) != pattern
        },
        first_match(s, pattern, from) is None <==> forall|j: int|
            from <= j <= s.len() - pattern.len() ==> #[trigger] s.subrange(j, j + pattern.len())
                != pattern,
{
    lemma_first_match(s, pattern, from);
    match first_match(s, pattern, from) {
        Some(found) => {
            assert(s.subrange(found, found + pattern.len()) == pattern);
            assert forall|j: int| from <= j < found implies #[trigger] s.subrange(
                j,
                j + pattern.len(),
            ) != pattern by {
                assert(!occurs_at(s, pattern, j));
            }
        },
        None => {
            assert forall|j: int|
                from <= j <= s.len() - pattern.len() implies #[trigger] s.subrange(
                j,
                j + pattern.len(),
            ) != pattern by {
                assert(!occurs_at(s, pattern, j));
            }
        },
    }
}

/// Nothing is counted exactly where the pattern stands nowhere.
pub proof fn law_count_is_zero_where_nothing_stands(s: Seq<char>, pattern: Seq<char>)
    ensures
        match_count(s, pattern, 0) == 0 <==> forall|j: int|
            0 <= j <= s.len() - pattern.len() ==> #[trigger] s.subrange(j, j + pattern.len())
                != pattern,
{
    law_search_finds_the_first_place(s, pattern, 0, 0);
}

/// More than one match is counted exactly where the pattern stands at two places that do not overlap;
/// the empty pattern stands at two places wherever there is a character.
pub proof fn law_count_is_many_where_two_do_not_overlap(s: Seq<char>, pattern: Seq<char>)
    ensures
        match_count(s, pattern, 0) > 1 <==> exists|i: int, j: int|
            {
                &&& 0 <= i < j <= s.len() - pattern.len()
                &&& i + pattern.len() <= j
                &&& #[trigger] s.subrange(i, i + pattern.len()) == pattern
                &&& #[trigger] s.subrange(j, j + pattern.len()) == pattern
            },
{
    lemma_first_match(s, pattern, 0);
    if let Some(first) = first_match(s, pattern, 0) {
        let next = first + match_step(pattern);
        lemma_first_match(s, pattern, next);
        if let Some(second) = first_match(s, pattern, next) {
            assert(match_count(s, pattern, next) >= 1);
            assert(s.subrange(first, first + pattern.len()) == pattern);
            assert(s.subrange(second, second + pattern.len()) == pattern);
        }
        if exists|i: int, j: int|
            {
                &&& 0 <= i < j <= s.len() - pattern.len()
                &&& i + pattern.len() <= j
                &&& #[trigger] s.subrange(i, i + pattern.len()) == pattern
                &&& #[trigger] s.subrange(j, j + pattern.len()) == pattern
            } {
            let (i, j) = choose|i: int, j: int|
                {
                    &&& 0 <= i < j <= s.len() - pattern.len()
                    &&& i + pattern.len() <= j
                    &&& #[trigger] s.subrange(i, i + pattern.len()) == pattern
                    &&& #[trigger] s.subrange(j, j + pattern.len()) == pattern
                };
            assert(occurs_at(s, pattern, i));
            assert(occurs_at(s, pattern, j));
            assert(first <= i);
            assert(next <= j);
            assert(first_match(s, pattern, next) is Some);
        }
    } else {
        if exists|i: int, j: int|
            {
                &&& 0 <= i < j <= s.len() - pattern.len()
                &&& i + pattern.len() <= j
                &&& #[trigger] s.subrange(i, i + pattern.len()) == pattern
                &&& #[trigger] s.subrange(j, j + pattern.len()) == pattern
            } {
            let (i, j) = choose|i: int, j: int|
                {
                    &&& 0 <= i < j <= s.len() - pattern.len()
                    &&& i + pattern.len() <= j
                    &&& #[trigger] s.subrange(i, i + pattern.len()) == pattern
                    &&& #[trigger] s.subrange(j, j + pattern.len()) == pattern
                };
            assert(occurs_at(s, pattern, i));
        }
    }
}

/// Replacing the first match puts the replacement where the pattern stands first and keeps the rest;
/// without a match the text is kept.
pub proof fn law_first_match_is_replaced(
    before: Seq<char>,
    pattern: Seq<char>,
    behind: Seq<char>,
    replacement: Seq<char>,
)
    requires
        forall|j: int|
            0 <= j < before.len() ==> #[trigger] (before + pattern + behind).subrange(
                j,
                j + pattern.len(),
            ) != pattern,
    ensures
        replaced_first(before + pattern + behind, pattern, replacement) == before + replacement
            + behind,
{
    let s = before + pattern + behind;
    let at = before.len() as int;
    assert(s.subrange(at, at + pattern.len()) =~= pattern);
    law_search_finds_the_first_place(s, pattern, 0, at);
    assert(s.subrange(0, at) =~= before);
    assert(s.subrange(at + pattern.len(), s.len() as int) =~= behind);
}

/// Where the pattern stands nowhere, replacing it changes nothing.
pub proof fn law_nothing_is_replaced_without_a_match(
    s: Seq<char>,
    pattern: Seq<char>,
    replacement: Seq<char>,
)
    requires
        forall|j: int|
            0 <= j <= s.len() - pattern.len() ==> #[trigger] s.subrange(j, j + pattern.len())
                != pattern,
    ensures
        replaced_first(s, pattern, replacement) == s,
{
    law_search_finds_the_first_place(s, pattern, 0, 0);
}

// ---------------------------------------------------------------------------------------------
// White space and letter case
// ---------------------------------------------------------------------------------------------

/// White space is what Unicode calls so, by code.
pub proof fn law_white_space_by_code(c: char)
    ensures
        is_white_space(c) <==> {
            let code = c as u32;
            ||| 9 <= code <= 13
            ||| code == 32 || code == 133 || code == 160 || code == 5760
            ||| 8192 <= code <= 8202
            ||| code == 8232 || code == 8233 || code == 8239 || code == 8287 || code == 12288
        },
{
}

/// Trimming takes away the white space around a text, all of it, and nothing else.
pub proof fn law_trimming_takes_white_space_away(
    before: Seq<char>,
    core: Seq<char>,
    behind: Seq<char>,
)
    requires
        forall|i: int| 0 <= i < before.len() ==> is_white_space(#[trigger] before[i]),
        forall|i: int| 0 <= i < behind.len() ==> is_white_space(#[trigger] behind[i]),
        core.len() > 0 ==> !is_white_space(core[0]) && !is_white_space(core[core.len() - 1]),
    ensures
        trimmed(before + core + behind) == core,
{
    assert(all_white_space(before) && all_white_space(behind));
    lemma_trimmed_around(before, core, behind);
}

/// Lowering turns each capital letter from A to Z into the small one, and keeps every other character.
pub proof fn law_lowering_changes_capitals_only(s: Seq<char>, i: int)
    requires
        0 <= i < s.len(),
    ensures
        ascii_lowered(s).len() == s.len(),
        65 <= s[i] as u32 <= 90 ==> ascii_lowered(s)[i] as u32 == s[i] as u32 + 32,
        !(65 <= s[i] as u32 <= 90) ==> ascii_lowered(s)[i] == s[i],
{
    assert(ascii_lowered(s)[i] == ascii_lower(s[i]));
}

// ---------------------------------------------------------------------------------------------
// Numbers
// ---------------------------------------------------------------------------------------------

/// A number below ten is one digit; one more digit behind a number is ten times the number and the
/// digit.
pub proof fn law_decimal_digit_by_digit(n: nat, last: nat)
    requires
        last < 10,
    ensures
        decimal(last) == seq![(48 + last) as char],
        n > 0 ==> decimal(10 * n + last) == decimal(n).push((48 + last) as char),
{
    if n > 0 {
        assert((10 * n + last) / 10 == n);
        assert((10 * n + last) % 10 == last);
    }
}

// ---------------------------------------------------------------------------------------------
// Lines
// ---------------------------------------------------------------------------------------------

/// The texts of strings are their characters, string by string.
pub proof fn law_texts_are_the_characters(strings: Seq<String>, i: int)
    requires
        0 <= i < strings.len(),
    ensures
        texts(strings).len() == strings.len(),
        texts(strings)[i] == strings[i]@,
{
}

/// An empty text has no lines, and a text without line feeds is one line.
pub proof fn law_text_without_line_feed_is_one_line(s: Seq<char>)
    requires
        forall|i: int| 0 <= i < s.len() ==> s[i] != '\n',
    ensures
        lines(s) == if s.len() == 0 {
            Seq::<Seq<char>>::empty()
        } else {
            seq![s]
        },
{
    lemma_line_length(s, s.len() as int);
}

/// A line feed ends a line, and a carriage return right before it belongs to the ending; the lines of
/// what follows come behind.
pub proof fn law_line_feed_ends_a_line(line: Seq<char>, rest: Seq<char>)
    requires
        forall|i: int| 0 <= i < line.len() ==> line[i] != '\n',
    ensures
        (line.len() == 0 || line[line.len() - 1] != '\r') ==> lines(line.push('\n') + rest)
            == seq![line] + lines(rest),
        lines(line.push('\r').push('\n') + rest) == seq![line] + lines(rest),
{
    let plain = line.push('\n') + rest;
    lemma_line_length(plain, line.len() as int);
    assert(plain.subrange(0, line.len() as int) =~= line);
    assert(plain.subrange(line.len() as int + 1, plain.len() as int) =~= rest);
    let returned = line.push('\r').push('\n') + rest;
    assert forall|i: int| 0 <= i < line.len() + 1 implies returned[i] != '\n' by {
        if i < line.len() {
            assert(returned[i] == line[i]);
        }
    }
    lemma_line_length(returned, line.len() as int + 1);
    assert(returned.subrange(0, line.len() as int + 1) =~= line.push('\r'));
    assert(line.push('\r').drop_last() =~= line);
    assert(returned.subrange(line.len() as int + 2, returned.len() as int) =~= rest);
}

/// No parts are joined to nothing, one part to itself, and two groups of parts to what each is joined
/// to, with a line feed between.
pub proof fn law_parts_are_joined_by_line_feeds(first: Seq<Seq<char>>, second: Seq<Seq<char>>)
    ensures
        joined(Seq::empty()) == Seq::<char>::empty(),
        first.len() == 1 ==> joined(first) == first[0],
        first.len() > 0 && second.len() > 0 ==> joined(first + second) == joined(first).push('\n')
            + joined(second),
    decreases second.len(),
{
    if first.len() > 0 && second.len() > 0 {
        let all = first + second;
        assert(all.drop_last() =~= first + second.drop_last());
        assert(all.last() == second.last());
        if second.len() == 1 {
            assert(first + second.drop_last() =~= first);
            assert(joined(all) =~= joined(first).push('\n') + joined(second));
        } else {
            law_parts_are_joined_by_line_feeds(first, second.drop_last());
            assert(joined(all) =~= joined(first).push('\n') + joined(second));
        }
    }
}

/// Each of the endings `\r\n` and `\r` becomes one line feed, and what stands on its sides is
/// normalized on its own.
pub proof fn law_each_line_ending_becomes_a_line_feed(before: Seq<char>, behind: Seq<char>)
    ensures
        newlines_normalized(before + seq!['\r', '\n'] + behind) == newlines_normalized(before).push(
            '\n',
        ) + newlines_normalized(behind),
        (behind.len() == 0 || behind[0] != '\n') ==> newlines_normalized(
            before + seq!['\r'] + behind,
        ) == newlines_normalized(before).push('\n') + newlines_normalized(behind),
    decreases before.len(),
{
    let both = before + seq!['\r', '\n'] + behind;
    let single = before + seq!['\r'] + behind;
    if before.len() == 0 {
        assert(both.subrange(2, both.len() as int) =~= behind);
        assert(single.subrange(1, single.len() as int) =~= behind);
        assert(newlines_normalized(before).push('\n') =~= seq!['\n']);
    } else {
        let step: int = if before[0] == '\r' && before.len() > 1 && before[1] == '\n' {
            2
        } else {
            1
        };
        let rest = before.subrange(step, before.len() as int);
        law_each_line_ending_becomes_a_line_feed(rest, behind);
        assert(both.subrange(step, both.len() as int) =~= rest + seq!['\r', '\n'] + behind);
        assert(single.subrange(step, single.len() as int) =~= rest + seq!['\r'] + behind);
        assert(both[0] == before[0] && single[0] == before[0]);
        if before.len() > 1 {
            assert(both[1] == before[1] && single[1] == before[1]);
        }
        let head = if before[0] == '\r' {
            '\n'
        } else {
            before[0]
        };
        assert(newlines_normalized(both) =~= newlines_normalized(before).push('\n')
            + newlines_normalized(behind));
        if behind.len() == 0 || behind[0] != '\n' {
            assert(newlines_normalized(single) =~= newlines_normalized(before).push('\n')
                + newlines_normalized(behind));
        }
    }
}

/// How long the first line is: up to the first line feed, or to the end.
pub proof fn law_first_line_ends_at_the_first_line_feed(s: Seq<char>)
    ensures
        line_length(s) <= s.len(),
        forall|i: int| 0 <= i < line_length(s) ==> s[i] != '\n',
        line_length(s) < s.len() ==> s[line_length(s) as int] == '\n',
{
    lemma_line_length_bounds(s);
}

} // verus!
