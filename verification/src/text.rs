//! Operations on text, stated over the sequence of characters that a string holds.
use vstd::prelude::*;
use vstd::string::StringExecFns;

verus! {

/// `String::push` appends one character to the end of the string and leaves the rest as it was.
pub assume_specification[ std::string::String::push ](s: &mut std::string::String, c: char)
    ensures
        final(s)@ == old(s)@.push(c),
;

/// The characters of `s`, in order.
pub fn chars_of(s: &str) -> (out: Vec<char>)
    ensures
        out@ == s@,
{
    let mut out: Vec<char> = Vec::new();
    for c in it: s.chars()
        invariant
            out@ == it.seq().take(it.index()),
            it.seq() == s@,
    {
        out.push(c);
    }
    out
}

/// The string made of `chars[from..to]`.
pub fn string_of(chars: &Vec<char>, from: usize, to: usize) -> (out: String)
    requires
        from <= to <= chars@.len(),
    ensures
        out@ == chars@.subrange(from as int, to as int),
{
    let mut out = String::new();
    let mut i: usize = from;
    while i < to
        invariant
            from <= i <= to <= chars@.len(),
            out@ == chars@.subrange(from as int, i as int),
        decreases to - i,
    {
        out.push(chars[i]);
        i += 1;
        assert(chars@.subrange(from as int, i as int) =~= chars@.subrange(from as int, i - 1).push(
            chars@[i - 1],
        ));
    }
    out
}

/// The string made of two strings, one behind the other.
pub fn concat(a: &str, b: &str) -> (out: String)
    ensures
        out@ == a@ + b@,
{
    let mut out = a.to_owned();
    out.append(b);
    out
}

// ---------------------------------------------------------------------------------------------
// Comparing and searching
// ---------------------------------------------------------------------------------------------

/// Whether two strings hold the same characters.
pub fn same_text(a: &str, b: &str) -> (same: bool)
    ensures
        same == (a@ == b@),
{
    let left = chars_of(a);
    let right = chars_of(b);
    if left.len() != right.len() {
        return false;
    }
    let same = occurs_at_exec(&left, &right, 0);
    proof {
        assert(a@.subrange(0, b@.len() as int) =~= a@);
    }
    same
}

/// Whether `pattern` stands in `s` from position `at` on.
pub open spec fn occurs_at(s: Seq<char>, pattern: Seq<char>, at: int) -> bool {
    &&& 0 <= at
    &&& at + pattern.len() <= s.len()
    &&& s.subrange(at, at + pattern.len()) == pattern
}

fn occurs_at_exec(s: &Vec<char>, pattern: &Vec<char>, at: usize) -> (found: bool)
    ensures
        found == occurs_at(s@, pattern@, at as int),
{
    if at > s.len() || pattern.len() > s.len() - at {
        return false;
    }
    let mut i: usize = 0;
    while i < pattern.len()
        invariant
            at + pattern@.len() <= s@.len() == s.len(),
            i <= pattern@.len(),
            forall|j: int| 0 <= j < i ==> s@[at + j] == pattern@[j],
        decreases pattern@.len() - i,
    {
        if s[at + i] != pattern[i] {
            assert(s@.subrange(at as int, at + pattern@.len())[i as int] != pattern@[i as int]);
            return false;
        }
        i += 1;
    }
    assert(s@.subrange(at as int, at + pattern@.len()) =~= pattern@);
    true
}

/// Whether `s` begins with `prefix`.
pub open spec fn starts_with(s: Seq<char>, prefix: Seq<char>) -> bool {
    occurs_at(s, prefix, 0)
}

/// Whether `s` begins with `prefix`.
pub fn text_starts_with(s: &str, prefix: &str) -> (found: bool)
    ensures
        found == starts_with(s@, prefix@),
{
    occurs_at_exec(&chars_of(s), &chars_of(prefix), 0)
}

/// The first position from `from` on at which `pattern` stands in `s`.
pub open spec fn first_match(s: Seq<char>, pattern: Seq<char>, from: int) -> Option<int>
    decreases s.len() + 1 - from,
{
    if from < 0 || from + pattern.len() > s.len() {
        None
    } else if occurs_at(s, pattern, from) {
        Some(from)
    } else {
        first_match(s, pattern, from + 1)
    }
}

/// A first match is a match, it does not stand before `from`, and nothing between is a match; where
/// there is no first match, there is no match at all.
pub proof fn lemma_first_match(s: Seq<char>, pattern: Seq<char>, from: int)
    requires
        0 <= from,
    ensures
        first_match(s, pattern, from) matches Some(at) ==> {
            &&& from <= at
            &&& occurs_at(s, pattern, at)
            &&& forall|j: int| from <= j < at ==> !#[trigger] occurs_at(s, pattern, j)
        },
        first_match(s, pattern, from) is None ==> forall|j: int|
            from <= j ==> !#[trigger] occurs_at(s, pattern, j),
    decreases s.len() + 1 - from,
{
    if from + pattern.len() <= s.len() && !occurs_at(s, pattern, from) {
        lemma_first_match(s, pattern, from + 1);
    }
}

/// How far a match moves the search on: behind the match, or by one character where it is empty.
pub open spec fn match_step(pattern: Seq<char>) -> int {
    if pattern.len() == 0 {
        1
    } else {
        pattern.len() as int
    }
}

/// How many matches of `pattern` stand in `s` from `from` on, where each match is looked for behind
/// the one before it. The empty pattern matches before each character and at the end.
pub open spec fn match_count(s: Seq<char>, pattern: Seq<char>, from: int) -> nat
    decreases s.len() + 1 - from,
    when 0 <= from
{
    proof {
        lemma_first_match(s, pattern, from);
    }
    match first_match(s, pattern, from) {
        Some(at) => 1 + match_count(s, pattern, at + match_step(pattern)),
        None => 0,
    }
}

/// The first position from `from` on at which `pattern` stands in `s`.
fn find_from(s: &Vec<char>, pattern: &Vec<char>, from: usize) -> (found: Option<usize>)
    ensures
        found is Some <==> first_match(s@, pattern@, from as int) is Some,
        found matches Some(at) ==> first_match(s@, pattern@, from as int) == Some(at as int),
{
    let mut at: usize = from;
    while at <= s.len() && pattern.len() <= s.len() - at
        invariant
            from <= at,
            first_match(s@, pattern@, from as int) == first_match(s@, pattern@, at as int),
        decreases s@.len() + 1 - at,
    {
        if occurs_at_exec(s, pattern, at) {
            return Some(at);
        }
        if at == s.len() {
            assert(first_match(s@, pattern@, at + 1) is None);
            return None;
        }
        at += 1;
    }
    None
}

/// How many matches of `pattern` stand in `s`.
pub fn count_matches(s: &str, pattern: &str) -> (count: MatchCount)
    ensures
        count is Zero <==> match_count(s@, pattern@, 0) == 0,
        count is One <==> match_count(s@, pattern@, 0) == 1,
        count is Many <==> match_count(s@, pattern@, 0) > 1,
{
    let s_chars = chars_of(s);
    let p_chars = chars_of(pattern);
    match find_from(&s_chars, &p_chars, 0) {
        None => MatchCount::Zero,
        Some(at) => {
            proof {
                lemma_first_match(s@, pattern@, 0);
                assert(s_chars.len() == s@.len());
            }
            let step: usize = if p_chars.len() == 0 {
                1
            } else {
                p_chars.len()
            };
            assert(match_count(s@, pattern@, 0) == 1 + match_count(s@, pattern@, at + step));
            if s_chars.len() - at < step {
                assert(first_match(s@, pattern@, at + step) is None);
                return MatchCount::One;
            }
            match find_from(&s_chars, &p_chars, at + step) {
                None => MatchCount::One,
                Some(_) => MatchCount::Many,
            }
        },
    }
}

/// How often a pattern was found.
#[derive(Debug, Clone, Copy, PartialEq, Eq, Structural)]
pub enum MatchCount {
    Zero,
    One,
    Many,
}

/// Whether `pattern` stands anywhere in `s`.
pub open spec fn contains_text(s: Seq<char>, pattern: Seq<char>) -> bool {
    exists|at: int| occurs_at(s, pattern, at)
}

/// Whether `pattern` stands anywhere in `s`.
pub fn text_contains(s: &str, pattern: &str) -> (found: bool)
    ensures
        found == contains_text(s@, pattern@),
{
    proof {
        lemma_first_match(s@, pattern@, 0);
    }
    match find_from(&chars_of(s), &chars_of(pattern), 0) {
        Some(_) => true,
        None => false,
    }
}

/// `s` with `replacement` in place of the first match of `pattern`; `s` itself where there is none.
pub open spec fn replaced_first(
    s: Seq<char>,
    pattern: Seq<char>,
    replacement: Seq<char>,
) -> Seq<char> {
    match first_match(s, pattern, 0) {
        Some(at) => s.subrange(0, at) + replacement + s.subrange(
            at + pattern.len(),
            s.len() as int,
        ),
        None => s,
    }
}

/// `s` with `replacement` in place of the first match of `pattern`; `s` itself where there is none.
pub fn replace_first(s: &str, pattern: &str, replacement: &str) -> (out: String)
    ensures
        out@ == replaced_first(s@, pattern@, replacement@),
{
    let s_chars = chars_of(s);
    let p_chars = chars_of(pattern);
    proof {
        lemma_first_match(s@, pattern@, 0);
        assert(s_chars.len() == s@.len());
    }
    match find_from(&s_chars, &p_chars, 0) {
        Some(at) => {
            let mut out = string_of(&s_chars, 0, at);
            out.append(replacement);
            let rest = string_of(&s_chars, at + p_chars.len(), s_chars.len());
            out.append(rest.as_str());
            out
        },
        None => s.to_owned(),
    }
}

// ---------------------------------------------------------------------------------------------
// White space and letter case
// ---------------------------------------------------------------------------------------------

/// The characters with the Unicode property `White_Space`.
pub open spec fn is_white_space(c: char) -> bool {
    let code = c as u32;
    ||| 0x09 <= code <= 0x0d
    ||| code == 0x20
    ||| code == 0x85
    ||| code == 0xa0
    ||| code == 0x1680
    ||| 0x2000 <= code <= 0x200a
    ||| code == 0x2028
    ||| code == 0x2029
    ||| code == 0x202f
    ||| code == 0x205f
    ||| code == 0x3000
}

/// Whether a character has the Unicode property `White_Space`.
pub fn white_space(c: char) -> (yes: bool)
    ensures
        yes == is_white_space(c),
{
    let code: u32 = c as u32;
    (0x09 <= code && code <= 0x0d) || code == 0x20 || code == 0x85 || code == 0xa0 || code == 0x1680
        || (0x2000 <= code && code <= 0x200a) || code == 0x2028 || code == 0x2029 || code == 0x202f
        || code == 0x205f || code == 0x3000
}

/// `s` without the white space at both of its ends.
pub open spec fn trimmed(s: Seq<char>) -> Seq<char>
    decreases s.len(),
{
    if s.len() > 0 && is_white_space(s[0]) {
        trimmed(s.subrange(1, s.len() as int))
    } else if s.len() > 0 && is_white_space(s[s.len() - 1]) {
        trimmed(s.subrange(0, s.len() - 1))
    } else {
        s
    }
}

/// Trimming leaves nothing of a text exactly where the text is white space throughout.
pub proof fn lemma_trimmed_empty(s: Seq<char>)
    ensures
        trimmed(s).len() == 0 <==> forall|i: int|
            0 <= i < s.len() ==> is_white_space(#[trigger] s[i]),
    decreases s.len(),
{
    if s.len() > 0 && is_white_space(s[0]) {
        let rest = s.subrange(1, s.len() as int);
        lemma_trimmed_empty(rest);
        if trimmed(rest).len() == 0 {
            assert forall|i: int| 0 <= i < s.len() implies is_white_space(#[trigger] s[i]) by {
                if i > 0 {
                    assert(rest[i - 1] == s[i]);
                }
            }
        }
    } else if s.len() > 0 && is_white_space(s[s.len() - 1]) {
        lemma_trimmed_empty(s.subrange(0, s.len() - 1));
        assert(s.subrange(0, s.len() - 1)[0] == s[0]);
    }
}

/// White space behind a text does not change what trimming leaves of it.
proof fn lemma_trimmed_behind(s: Seq<char>, behind: char)
    requires
        is_white_space(behind),
    ensures
        trimmed(s.push(behind)) == trimmed(s),
    decreases s.len(),
{
    let whole = s.push(behind);
    if s.len() > 0 && is_white_space(s[0]) {
        let rest = s.subrange(1, s.len() as int);
        lemma_trimmed_behind(rest, behind);
        assert(whole.subrange(1, whole.len() as int) =~= rest.push(behind));
    } else if s.len() > 0 {
        assert(whole.subrange(0, whole.len() - 1) =~= s);
    } else {
        assert(whole.subrange(1, 1) =~= s);
    }
}

/// Whether a text is white space throughout.
pub open spec fn all_white_space(s: Seq<char>) -> bool {
    forall|i: int| 0 <= i < s.len() ==> is_white_space(#[trigger] s[i])
}

/// White space around a text does not change what trimming leaves of it.
pub proof fn lemma_trimmed_around(before: Seq<char>, s: Seq<char>, behind: Seq<char>)
    requires
        all_white_space(before),
        all_white_space(behind),
    ensures
        trimmed(before + s + behind) == trimmed(s),
    decreases before.len() + behind.len(),
{
    let whole = before + s + behind;
    if before.len() > 0 {
        let rest = before.subrange(1, before.len() as int);
        assert(whole[0] == before[0]);
        assert(whole.subrange(1, whole.len() as int) =~= rest + s + behind);
        lemma_trimmed_around(rest, s, behind);
    } else if behind.len() > 0 {
        let rest = behind.drop_last();
        assert(whole =~= (before + s + rest).push(behind.last()));
        lemma_trimmed_behind(before + s + rest, behind.last());
        lemma_trimmed_around(before, s, rest);
    } else {
        assert(whole =~= s);
    }
}

/// The characters of `s` without the white space at both ends.
pub fn trim(s: &str) -> (out: Vec<char>)
    ensures
        out@ == trimmed(s@),
{
    let chars = chars_of(s);
    let mut from: usize = 0;
    let mut to: usize = chars.len();
    assert(chars@.subrange(0, to as int) =~= chars@);
    while from < to && white_space(chars[from])
        invariant
            from <= to == chars@.len(),
            trimmed(chars@) == trimmed(chars@.subrange(from as int, to as int)),
        decreases to - from,
    {
        let ghost whole = chars@.subrange(from as int, to as int);
        from += 1;
        assert(whole.subrange(1, whole.len() as int) =~= chars@.subrange(from as int, to as int));
    }
    while from < to && white_space(chars[to - 1])
        invariant
            from <= to <= chars@.len(),
            from < to ==> !is_white_space(chars@[from as int]),
            trimmed(chars@) == trimmed(chars@.subrange(from as int, to as int)),
        decreases to - from,
    {
        let ghost whole = chars@.subrange(from as int, to as int);
        to -= 1;
        assert(whole.subrange(0, whole.len() - 1) =~= chars@.subrange(from as int, to as int));
    }
    let mut out: Vec<char> = Vec::new();
    let mut i: usize = from;
    while i < to
        invariant
            from <= i <= to <= chars@.len(),
            out@ == chars@.subrange(from as int, i as int),
        decreases to - i,
    {
        out.push(chars[i]);
        i += 1;
    }
    out
}

/// An ASCII capital letter as the small letter; any other character as it is.
pub open spec fn ascii_lower(c: char) -> char {
    if 'A' as u32 <= c as u32 <= 'Z' as u32 {
        (c as u32 + 32) as char
    } else {
        c
    }
}

/// `s` with each ASCII capital letter as the small letter.
pub open spec fn ascii_lowered(s: Seq<char>) -> Seq<char> {
    s.map_values(|c: char| ascii_lower(c))
}

/// Letter case does not change what trimming takes away.
pub proof fn lemma_lowered_trimmed(s: Seq<char>)
    ensures
        ascii_lowered(trimmed(s)) == trimmed(ascii_lowered(s)),
    decreases s.len(),
{
    let low = ascii_lowered(s);
    assert(forall|c: char| is_white_space(ascii_lower(c)) == is_white_space(c));
    if s.len() > 0 && is_white_space(s[0]) {
        let rest = s.subrange(1, s.len() as int);
        lemma_lowered_trimmed(rest);
        assert(low[0] == ascii_lower(s[0]));
        assert(low.subrange(1, low.len() as int) =~= ascii_lowered(rest));
    } else if s.len() > 0 && is_white_space(s[s.len() - 1]) {
        let rest = s.subrange(0, s.len() - 1);
        lemma_lowered_trimmed(rest);
        assert(low[0] == ascii_lower(s[0]));
        assert(low[low.len() - 1] == ascii_lower(s[s.len() - 1]));
        assert(low.subrange(0, low.len() - 1) =~= ascii_lowered(rest));
    } else if s.len() > 0 {
        assert(low[0] == ascii_lower(s[0]));
        assert(low[low.len() - 1] == ascii_lower(s[s.len() - 1]));
    }
}

/// `s` with each ASCII capital letter as the small letter.
pub fn to_ascii_lower(chars: &Vec<char>) -> (out: String)
    ensures
        out@ == ascii_lowered(chars@),
{
    let mut out = String::new();
    let mut i: usize = 0;
    while i < chars.len()
        invariant
            i <= chars@.len(),
            out@ =~= ascii_lowered(chars@.take(i as int)),
        decreases chars@.len() - i,
    {
        let code: u32 = chars[i] as u32;
        if 65 <= code && code <= 90 {
            out.push((code as u8 + 32) as char);
        } else {
            out.push(chars[i]);
        }
        i += 1;
    }
    assert(chars@.take(i as int) =~= chars@);
    out
}

// ---------------------------------------------------------------------------------------------
// Decimal numbers
// ---------------------------------------------------------------------------------------------

/// The digit `n`, for `n` below ten.
pub open spec fn digit(n: nat) -> char {
    ('0' as u32 + n) as char
}

/// `n` in decimal notation, without leading zeros.
pub open spec fn decimal(n: nat) -> Seq<char>
    decreases n,
{
    if n < 10 {
        seq![digit(n)]
    } else {
        decimal(n / 10).push(digit(n % 10))
    }
}

/// `n` in decimal notation.
pub fn decimal_text(n: usize) -> (out: String)
    ensures
        out@ == decimal(n as nat),
    decreases n,
{
    let last: char = (48u8 + (n % 10) as u8) as char;
    if n < 10 {
        let mut out = String::new();
        out.push(last);
        assert(out@ =~= seq![digit(n as nat)]);
        out
    } else {
        let mut out = decimal_text(n / 10);
        out.push(last);
        out
    }
}

} // verus!
