//! Text as a sequence of lines.
use vstd::prelude::*;
use vstd::string::StringExecFns;

use crate::text::{chars_of, string_of};

verus! {

/// How many characters stand before the first line feed of `s`, or in all of `s` where it has none.
pub open spec fn line_length(s: Seq<char>) -> nat
    decreases s.len(),
{
    if s.len() == 0 || s[0] == '\n' {
        0
    } else {
        1 + line_length(s.subrange(1, s.len() as int))
    }
}

/// `line` without the carriage return at its end, where it has one.
pub open spec fn without_carriage_return(line: Seq<char>) -> Seq<char> {
    if line.len() > 0 && line.last() == '\r' {
        line.drop_last()
    } else {
        line
    }
}

/// The lines of `s`. A line ends with a line feed, or with a carriage return and a line feed, and
/// neither belongs to it; the last line may do without.
pub open spec fn lines(s: Seq<char>) -> Seq<Seq<char>>
    decreases s.len(),
{
    let length = line_length(s) as int;
    if s.len() == 0 {
        Seq::empty()
    } else if length >= s.len() {
        seq![s]
    } else {
        seq![without_carriage_return(s.subrange(0, length))] + lines(
            s.subrange(length + 1, s.len() as int),
        )
    }
}

/// The line length is the position of the first line feed, or the length of the text.
pub proof fn lemma_line_length(s: Seq<char>, length: int)
    requires
        0 <= length <= s.len(),
        forall|i: int| 0 <= i < length ==> s[i] != '\n',
        length < s.len() ==> s[length] == '\n',
    ensures
        line_length(s) == length,
    decreases length,
{
    if length > 0 {
        lemma_line_length(s.subrange(1, s.len() as int), length - 1);
    }
}

/// What the line length says of the text.
pub proof fn lemma_line_length_bounds(s: Seq<char>)
    ensures
        line_length(s) <= s.len(),
        forall|i: int| 0 <= i < line_length(s) ==> s[i] != '\n',
        line_length(s) < s.len() ==> s[line_length(s) as int] == '\n',
    decreases s.len(),
{
    if s.len() > 0 && s[0] != '\n' {
        let rest = s.subrange(1, s.len() as int);
        lemma_line_length_bounds(rest);
        assert forall|i: int| 0 <= i < line_length(s) implies s[i] != '\n' by {
            if i > 0 {
                assert(rest[i - 1] == s[i]);
            }
        }
    }
}

/// The characters that each string of a vector holds.
pub open spec fn texts(strings: Seq<String>) -> Seq<Seq<char>> {
    strings.map_values(|s: String| s@)
}

/// The lines of `s`, in order.
pub fn split_lines(s: &str) -> (out: Vec<String>)
    ensures
        texts(out@) == lines(s@),
{
    let chars = chars_of(s);
    let mut out: Vec<String> = Vec::new();
    let mut start: usize = 0;
    let mut i: usize = 0;
    assert(chars@.subrange(0, chars@.len() as int) =~= chars@);
    assert(texts(out@) + lines(chars@) =~= lines(chars@));
    while i < chars.len()
        invariant
            start <= i <= chars@.len(),
            forall|j: int| start <= j < i ==> chars@[j] != '\n',
            texts(out@) + lines(chars@.subrange(start as int, chars@.len() as int)) == lines(
                chars@,
            ),
        decreases chars@.len() - i,
    {
        if chars[i] == '\n' {
            let ghost rest = chars@.subrange(start as int, chars@.len() as int);
            proof {
                lemma_line_length(rest, i - start);
                assert(rest.subrange(0, i - start) =~= chars@.subrange(start as int, i as int));
                assert(rest.subrange(i - start + 1, rest.len() as int) =~= chars@.subrange(
                    i + 1,
                    chars@.len() as int,
                ));
            }
            let end: usize = if i > start && chars[i - 1] == '\r' {
                i - 1
            } else {
                i
            };
            let line = string_of(&chars, start, end);
            let ghost before = texts(out@);
            proof {
                let whole = chars@.subrange(start as int, i as int);
                if i > start {
                    assert(whole.last() == chars@[i - 1]);
                    assert(whole.drop_last() =~= chars@.subrange(start as int, i - 1));
                }
                assert(line@ == without_carriage_return(whole));
            }
            out.push(line);
            start = i + 1;
            proof {
                let tail = lines(chars@.subrange(start as int, chars@.len() as int));
                assert(texts(out@) =~= before.push(line@));
                assert(texts(out@) + tail =~= before + (seq![line@] + tail));
            }
        }
        i += 1;
    }
    let ghost rest = chars@.subrange(start as int, chars@.len() as int);
    let ghost before = texts(out@);
    proof {
        lemma_line_length(rest, rest.len() as int);
    }
    if start < chars.len() {
        let line = string_of(&chars, start, chars.len());
        out.push(line);
        assert(texts(out@) =~= before + seq![rest]);
    } else {
        assert(texts(out@) + lines(rest) =~= texts(out@));
    }
    out
}

/// The parts, one behind the other, with a line feed between each two.
pub open spec fn joined(parts: Seq<Seq<char>>) -> Seq<char>
    decreases parts.len(),
{
    if parts.len() == 0 {
        Seq::empty()
    } else if parts.len() == 1 {
        parts[0]
    } else {
        joined(parts.drop_last()) + seq!['\n'] + parts.last()
    }
}

/// The parts, one behind the other, with a line feed between each two.
pub fn join_lines(parts: &Vec<String>) -> (out: String)
    ensures
        out@ == joined(texts(parts@)),
{
    let mut out = String::new();
    let mut i: usize = 0;
    while i < parts.len()
        invariant
            i <= parts@.len(),
            out@ == joined(texts(parts@.take(i as int))),
        decreases parts@.len() - i,
    {
        let ghost before = texts(parts@.take(i as int));
        let ghost part = parts@[i as int]@;
        let ghost sofar = out@;
        if i > 0 {
            out.push('\n');
        }
        out.append(parts[i].as_str());
        i += 1;
        proof {
            let now = texts(parts@.take(i as int));
            assert(now =~= before.push(part));
            assert(now.drop_last() =~= before);
            if i > 1 {
                assert(sofar + seq!['\n'] + part =~= sofar.push('\n') + part);
            } else {
                assert(out@ =~= part);
            }
        }
    }
    assert(parts@.take(i as int) =~= parts@);
    out
}

/// `s` with a line feed in place of each carriage return, and of each carriage return that a line
/// feed follows together with it.
pub open spec fn newlines_normalized(s: Seq<char>) -> Seq<char>
    decreases s.len(),
{
    if s.len() == 0 {
        Seq::empty()
    } else if s[0] == '\r' && s.len() > 1 && s[1] == '\n' {
        seq!['\n'] + newlines_normalized(s.subrange(2, s.len() as int))
    } else if s[0] == '\r' {
        seq!['\n'] + newlines_normalized(s.subrange(1, s.len() as int))
    } else {
        seq![s[0]] + newlines_normalized(s.subrange(1, s.len() as int))
    }
}

/// `s` with each of the line endings `\r\n` and `\r` as `\n`.
pub fn normalize_newlines(s: &str) -> (out: String)
    ensures
        out@ == newlines_normalized(s@),
{
    let chars = chars_of(s);
    let mut out = String::new();
    let mut i: usize = 0;
    assert(chars@.subrange(0, chars@.len() as int) =~= chars@);
    assert(out@ + newlines_normalized(chars@) =~= newlines_normalized(chars@));
    while i < chars.len()
        invariant
            i <= chars@.len(),
            out@ + newlines_normalized(chars@.subrange(i as int, chars@.len() as int))
                == newlines_normalized(chars@),
        decreases chars@.len() - i,
    {
        let ghost rest = chars@.subrange(i as int, chars@.len() as int);
        let ghost before = out@;
        let next: char = if chars[i] == '\r' {
            '\n'
        } else {
            chars[i]
        };
        let step: usize = if chars[i] == '\r' && chars.len() - i > 1 && chars[i + 1] == '\n' {
            2
        } else {
            1
        };
        out.push(next);
        i += step;
        proof {
            let tail = chars@.subrange(i as int, chars@.len() as int);
            assert(rest.subrange(step as int, rest.len() as int) =~= tail);
            assert(before.push(next) + newlines_normalized(tail) =~= before + (seq![next]
                + newlines_normalized(tail)));
        }
    }
    assert(out@ + newlines_normalized(chars@.subrange(i as int, chars@.len() as int)) =~= out@);
    out
}

/// A normalized text holds no carriage return.
pub proof fn law_normalized_has_no_carriage_return(s: Seq<char>)
    ensures
        forall|i: int| 0 <= i < newlines_normalized(s).len() ==> newlines_normalized(s)[i] != '\r',
    decreases s.len(),
{
    if s.len() > 0 {
        let step: int = if s[0] == '\r' && s.len() > 1 && s[1] == '\n' {
            2
        } else {
            1
        };
        let rest = newlines_normalized(s.subrange(step, s.len() as int));
        law_normalized_has_no_carriage_return(s.subrange(step, s.len() as int));
        assert forall|i: int| 0 <= i < newlines_normalized(s).len() implies newlines_normalized(
            s,
        )[i] != '\r' by {
            if i > 0 {
                assert(newlines_normalized(s)[i] == rest[i - 1]);
            }
        }
    }
}

/// A text without carriage returns is normalized already.
pub proof fn law_text_without_carriage_return_is_kept(s: Seq<char>)
    requires
        forall|i: int| 0 <= i < s.len() ==> s[i] != '\r',
    ensures
        newlines_normalized(s) == s,
    decreases s.len(),
{
    if s.len() > 0 {
        let rest = s.subrange(1, s.len() as int);
        law_text_without_carriage_return_is_kept(rest);
        assert(seq![s[0]] + rest =~= s);
    } else {
        assert(newlines_normalized(s) =~= s);
    }
}

/// Normalizing a second time changes nothing.
pub proof fn law_normalizing_is_idempotent(s: Seq<char>)
    ensures
        newlines_normalized(newlines_normalized(s)) == newlines_normalized(s),
{
    law_normalized_has_no_carriage_return(s);
    law_text_without_carriage_return_is_kept(newlines_normalized(s));
}

} // verus!
