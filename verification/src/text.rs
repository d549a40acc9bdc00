//! Text as sequences of characters: searching for a pattern, cutting out the
//! part between two markers, and writing numbers in decimal.

use vstd::prelude::*;

verus! {

/// `pattern` stands in `text` at position `at`.
pub open spec fn occurs_at(text: Seq<char>, pattern: Seq<char>, at: int) -> bool {
    &&& 0 <= at
    &&& at + pattern.len() <= text.len()
    &&& text.subrange(at, at + pattern.len()) == pattern
}

/// `pattern` stands somewhere in `text`.
pub open spec fn contains(text: Seq<char>, pattern: Seq<char>) -> bool {
    exists|at: int| occurs_at(text, pattern, at)
}

/// `at` is the leftmost position of `pattern` in `text`.
pub open spec fn is_first_occurrence(text: Seq<char>, pattern: Seq<char>, at: int) -> bool {
    &&& occurs_at(text, pattern, at)
    &&& forall|before: int| 0 <= before < at ==> !occurs_at(text, pattern, before)
}

/// The leftmost position of `pattern` in `text`, if it occurs at all.
pub open spec fn first_occurrence(text: Seq<char>, pattern: Seq<char>) -> Option<int> {
    if contains(text, pattern) {
        Some(choose|at: int| is_first_occurrence(text, pattern, at))
    } else {
        None
    }
}

/// What stands in `text` between the leftmost `open` and the first `close`
/// that follows it; `None` where either marker is missing.
pub open spec fn between(text: Seq<char>, open: Seq<char>, close: Seq<char>) -> Option<
    Seq<char>,
> {
    match first_occurrence(text, open) {
        None => None,
        Some(at) => {
            let rest = text.skip(at + open.len());
            match first_occurrence(rest, close) {
                None => None,
                Some(end) => Some(rest.take(end)),
            }
        },
    }
}

/// A leftmost occurrence is the one that `first_occurrence` names.
pub proof fn lemma_first_occurrence_is(text: Seq<char>, pattern: Seq<char>, at: int)
    requires
        is_first_occurrence(text, pattern, at),
    ensures
        first_occurrence(text, pattern) == Some(at),
{
    assert(occurs_at(text, pattern, at));
    let chosen = choose|c: int| is_first_occurrence(text, pattern, c);
    assert(is_first_occurrence(text, pattern, chosen));
    if chosen < at {
        assert(!occurs_at(text, pattern, chosen));
    }
    if at < chosen {
        assert(!occurs_at(text, pattern, at));
    }
}

/// A pattern that `first_occurrence` finds stands there, and nowhere before.
pub proof fn lemma_first_occurrence_found(text: Seq<char>, pattern: Seq<char>)
    requires
        contains(text, pattern),
    ensures
        first_occurrence(text, pattern) is Some,
        is_first_occurrence(text, pattern, first_occurrence(text, pattern)->Some_0),
{
    let some = choose|at: int| occurs_at(text, pattern, at);
    lemma_least_occurrence(text, pattern, some);
}

/// Below any occurrence there is a leftmost one.
proof fn lemma_least_occurrence(text: Seq<char>, pattern: Seq<char>, at: int)
    requires
        occurs_at(text, pattern, at),
    ensures
        exists|least: int| is_first_occurrence(text, pattern, least),
    decreases at,
{
    if exists|before: int| 0 <= before < at && occurs_at(text, pattern, before) {
        let before = choose|before: int| 0 <= before < at && occurs_at(text, pattern, before);
        lemma_least_occurrence(text, pattern, before);
    } else {
        assert(is_first_occurrence(text, pattern, at));
    }
}

/// An occurrence in the part of `text` from `from` on is one in `text`,
/// `from` places further right, and the other way round.
pub proof fn lemma_occurs_at_skip(text: Seq<char>, pattern: Seq<char>, from: int, at: int)
    requires
        0 <= from <= text.len(),
        0 <= at,
    ensures
        occurs_at(text.skip(from), pattern, at) <==> occurs_at(text, pattern, from + at),
{
    if at + pattern.len() <= text.len() - from {
        assert(text.skip(from).subrange(at, at + pattern.len()) =~= text.subrange(
            from + at,
            from + at + pattern.len(),
        ));
    }
}

/// What `between` cuts out stands in `text` with its markers round it: the
/// leftmost `open` before it, `close` right behind it, and no `close` begins
/// earlier behind that `open`.
pub proof fn lemma_between_found(text: Seq<char>, open: Seq<char>, close: Seq<char>)
    requires
        between(text, open, close) is Some,
    ensures
        first_occurrence(text, open) is Some,
        ({
            let at = first_occurrence(text, open)->Some_0;
            let part = between(text, open, close)->Some_0;
            let start = at + open.len();
            &&& is_first_occurrence(text, open, at)
            &&& start + part.len() + close.len() <= text.len()
            &&& text.subrange(start, start + part.len()) == part
            &&& occurs_at(text, close, start + part.len())
            &&& forall|k: int| start <= k < start + part.len() ==> !occurs_at(text, close, k)
        }),
{
    lemma_first_occurrence_found(text, open);
    let at = first_occurrence(text, open)->Some_0;
    let start = at + open.len();
    let rest = text.skip(start);
    lemma_first_occurrence_found(rest, close);
    let end = first_occurrence(rest, close)->Some_0;
    lemma_occurs_at_skip(text, close, start, end);
    assert(text.subrange(start, start + end) =~= rest.take(end));
    assert forall|k: int| start <= k < start + end implies !occurs_at(text, close, k) by {
        lemma_occurs_at_skip(text, close, start, k - start);
    }
}

/// `between` cuts something out exactly where `open` stands in `text` and
/// `close` stands somewhere behind the leftmost `open`.
pub proof fn lemma_between_missing(text: Seq<char>, open: Seq<char>, close: Seq<char>)
    ensures
        between(text, open, close) is None <==> (!contains(text, open) || !contains(
            text.skip(first_occurrence(text, open)->Some_0 + open.len()),
            close,
        )),
{
}

/// The characters of `s`, in order.
pub fn chars_of(s: &str) -> (v: Vec<char>)
    ensures
        v@ == s@,
{
    let mut v: Vec<char> = Vec::new();
    for c in it: s.chars()
        invariant
            it.seq() == s@,
            v@ == it.seq().take(it.index()),
    {
        v.push(c);
    }
    assert(v@ =~= s@);
    v
}

/// Whether `pattern` stands in `text` at position `at`.
pub fn matches_at(text: &Vec<char>, pattern: &Vec<char>, at: usize) -> (r: bool)
    ensures
        r == occurs_at(text@, pattern@, at as int),
{
    if at > text.len() || pattern.len() > text.len() - at {
        return false;
    }
    let mut k: usize = 0;
    while k < pattern.len()
        invariant
            at + pattern.len() <= text.len(),
            k <= pattern.len(),
            forall|j: int| 0 <= j < k ==> text@[at + j] == pattern@[j],
        decreases pattern.len() - k,
    {
        if text[at + k] != pattern[k] {
            assert(text@.subrange(at as int, at + pattern.len())[k as int] != pattern@[k as int]);
            return false;
        }
        k += 1;
    }
    assert(text@.subrange(at as int, at + pattern.len()) =~= pattern@);
    true
}

/// The leftmost position at or after `from` where `pattern` stands in `text`.
/// Behind the end of `text` nothing is found.
pub fn find_from(text: &Vec<char>, pattern: &Vec<char>, from: usize) -> (r: Option<usize>)
    ensures
        from > text.len() ==> r is None,
        from <= text.len() ==> match r {
            Some(at) => from <= at && at + pattern.len() <= text.len() && first_occurrence(
                text@.skip(from as int),
                pattern@,
            ) == Some(at - from),
            None => first_occurrence(text@.skip(from as int), pattern@) is None,
        },
{
    if from > text.len() {
        return None;
    }
    let ghost rest = text@.skip(from as int);
    if pattern.len() > text.len() - from {
        assert forall|at: int| !occurs_at(rest, pattern@, at) by {}
        return None;
    }
    let last: usize = text.len() - pattern.len();
    let mut at: usize = from;
    while at < last
        invariant
            from <= at <= last,
            last == text.len() - pattern.len(),
            rest == text@.skip(from as int),
            forall|before: int| 0 <= before < at - from ==> !occurs_at(rest, pattern@, before),
        decreases last - at,
    {
        proof {
            lemma_occurs_at_skip(text@, pattern@, from as int, at - from);
        }
        if matches_at(text, pattern, at) {
            proof {
                lemma_first_occurrence_is(rest, pattern@, at - from);
            }
            return Some(at);
        }
        at += 1;
    }
    proof {
        lemma_occurs_at_skip(text@, pattern@, from as int, at - from);
    }
    if matches_at(text, pattern, at) {
        proof {
            lemma_first_occurrence_is(rest, pattern@, at - from);
        }
        return Some(at);
    }
    assert forall|k: int| !occurs_at(rest, pattern@, k) by {}
    None
}

/// The part of `text` between the leftmost `open` and the first `close` after
/// it.
pub fn cut_between<'a>(text: &'a str, open: &str, close: &str) -> (r: Option<&'a str>)
    ensures
        match r {
            Some(part) => between(text@, open@, close@) == Some(part@),
            None => between(text@, open@, close@) is None,
        },
{
    let chars = chars_of(text);
    let open_chars = chars_of(open);
    let close_chars = chars_of(close);
    assert(text@.skip(0) =~= text@);
    match find_from(&chars, &open_chars, 0) {
        None => None,
        Some(at) => {
            let start: usize = at + open_chars.len();
            match find_from(&chars, &close_chars, start) {
                None => None,
                Some(end) => {
                    let part = text.substring_char(start, end);
                    assert(part@ =~= text@.skip(start as int).take(end - start));
                    Some(part)
                },
            }
        },
    }
}

/// The character that writes the digit `d`.
pub open spec fn digit_char(d: int) -> char {
    if d == 0 {
        '0'
    } else if d == 1 {
        '1'
    } else if d == 2 {
        '2'
    } else if d == 3 {
        '3'
    } else if d == 4 {
        '4'
    } else if d == 5 {
        '5'
    } else if d == 6 {
        '6'
    } else if d == 7 {
        '7'
    } else if d == 8 {
        '8'
    } else {
        '9'
    }
}

/// `n` in decimal, without leading zeros.
pub open spec fn decimal(n: nat) -> Seq<char>
    decreases n,
{
    if n < 10 {
        seq![digit_char(n as int)]
    } else {
        decimal(n / 10).push(digit_char((n % 10) as int))
    }
}

/// The character that writes the digit `d`.
pub fn digit(d: u32) -> (c: char)
    requires
        d < 10,
    ensures
        c == digit_char(d as int),
{
    match d {
        0 => '0',
        1 => '1',
        2 => '2',
        3 => '3',
        4 => '4',
        5 => '5',
        6 => '6',
        7 => '7',
        8 => '8',
        _ => '9',
    }
}

/// Appends one character with `String::push`, which puts `c` behind what `s`
/// holds and changes nothing else.
#[verifier::external_body]
pub(crate) fn push_char(s: &mut String, c: char)
    ensures
        final(s)@ == old(s)@.push(c),
{
    s.push(c);
}

/// Appends `n` in decimal to `out`.
pub fn push_decimal(out: &mut String, n: u32)
    ensures
        final(out)@ == old(out)@ + decimal(n as nat),
    decreases n,
{
    if n >= 10 {
        push_decimal(out, n / 10);
    }
    push_char(out, digit(n % 10));
    assert(out@ =~= old(out)@ + decimal(n as nat));
}

} // verus!
