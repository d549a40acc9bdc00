//! Writing text as the inside of a JSON string literal.

use vstd::prelude::*;
use crate::text::{digit_char, push_char};

verus! {

/// The character that writes the hexadecimal digit `d`, in lower case.
pub open spec fn hex_char(d: int) -> char {
    if d < 10 {
        digit_char(d)
    } else if d == 10 {
        'a'
    } else if d == 11 {
        'b'
    } else if d == 12 {
        'c'
    } else if d == 13 {
        'd'
    } else if d == 14 {
        'e'
    } else {
        'f'
    }
}

/// How one character stands inside a string literal: a quote and a backslash
/// behind a backslash, a control character as `\u00` and two hexadecimal
/// digits, every other character as itself.
pub open spec fn escaped_char(c: char) -> Seq<char> {
    if c == '"' {
        seq!['\\', '"']
    } else if c == '\\' {
        seq!['\\', '\\']
    } else if (c as int) < 0x20 {
        seq!['\\', 'u', '0', '0', hex_char(c as int / 16), hex_char(c as int % 16)]
    } else {
        seq![c]
    }
}

/// How `s` stands inside a string literal: each character in its escaped
/// form, one after the other.
pub open spec fn escaped(s: Seq<char>) -> Seq<char> {
    s.map_values(|c: char| escaped_char(c)).flatten()
}

/// Escaping goes character by character from the left.
pub proof fn lemma_escaped_front(s: Seq<char>)
    requires
        s.len() > 0,
    ensures
        escaped(s) == escaped_char(s[0]) + escaped(s.skip(1)),
{
    let parts = s.map_values(|c: char| escaped_char(c));
    assert(parts.drop_first() =~= s.skip(1).map_values(|c: char| escaped_char(c)));
}

/// Escaping goes character by character up to the right end.
pub proof fn lemma_escaped_push(s: Seq<char>, c: char)
    ensures
        escaped(s.push(c)) == escaped(s) + escaped_char(c),
{
    let parts = s.map_values(|c: char| escaped_char(c));
    assert(s.push(c).map_values(|c: char| escaped_char(c)) =~= parts.push(escaped_char(c)));
    parts.lemma_flatten_push(escaped_char(c));
}

/// Nothing escaped is nothing.
pub proof fn lemma_escaped_empty()
    ensures
        escaped(Seq::<char>::empty()) == Seq::<char>::empty(),
{
    assert(Seq::<char>::empty().map_values(|c: char| escaped_char(c)) =~= Seq::<Seq<char>>::empty());
}

/// The character that writes the hexadecimal digit `d`.
pub fn hex_digit(d: u32) -> (c: char)
    requires
        d < 16,
    ensures
        c == hex_char(d as int),
{
    match d {
        0 => '0',
        1 => '1',
        2 => '2',
        3 => '3',
        4 => '4',
        5 => '5',
        6 => '6',
        7 => '7',
        8 => '8',
        9 => '9',
        10 => 'a',
        11 => 'b',
        12 => 'c',
        13 => 'd',
        14 => 'e',
        _ => 'f',
    }
}

/// Appends the escaped form of `c` to `out`.
pub fn push_escaped_char(out: &mut String, c: char)
    ensures
        final(out)@ == old(out)@ + escaped_char(c),
{
    let code: u32 = c as u32;
    if c == '"' {
        push_char(out, '\\');
        push_char(out, '"');
    } else if c == '\\' {
        push_char(out, '\\');
        push_char(out, '\\');
    } else if code < 0x20 {
        push_char(out, '\\');
        push_char(out, 'u');
        push_char(out, '0');
        push_char(out, '0');
        push_char(out, hex_digit(code / 16));
        push_char(out, hex_digit(code % 16));
    } else {
        push_char(out, c);
    }
    assert(out@ =~= old(out)@ + escaped_char(c));
}

/// Appends the escaped form of `s` to `out`.
pub fn push_escaped(out: &mut String, s: &str)
    ensures
        final(out)@ == old(out)@ + escaped(s@),
{
    let ghost before = out@;
    proof {
        lemma_escaped_empty();
        assert(s@.take(0) =~= Seq::<char>::empty());
    }
    for c in it: s.chars()
        invariant
            it.seq() == s@,
            out@ == before + escaped(s@.take(it.index())),
    {
        proof {
            lemma_escaped_push(s@.take(it.index()), c);
            assert(s@.take(it.index()).push(c) =~= s@.take(it.index() + 1));
        }
        push_escaped_char(out, c);
    }
    assert(s@.take(s@.len() as int) =~= s@);
}

/// `s` as the inside of a string literal.
pub fn escape(s: &str) -> (r: String)
    ensures
        r@ == escaped(s@),
{
    let mut out = String::new();
    push_escaped(&mut out, s);
    assert(Seq::<char>::empty() + escaped(s@) =~= escaped(s@));
    out
}

/// The value of the hexadecimal digit `c`, in either case.
pub open spec fn hex_value(c: char) -> Option<int> {
    if '0' <= c <= '9' {
        Some(c as int - '0' as int)
    } else if 'a' <= c <= 'f' {
        Some(c as int - 'a' as int + 10)
    } else if 'A' <= c <= 'F' {
        Some(c as int - 'A' as int + 10)
    } else {
        None
    }
}

/// The character that `\u` and the four hexadecimal digits `a`, `b`, `c`, `d`
/// stand for; `None` where one of them is no digit or the number is no
/// character's.
pub open spec fn unicode_escape(a: char, b: char, c: char, d: char) -> Option<char> {
    match (hex_value(a), hex_value(b), hex_value(c), hex_value(d)) {
        (Some(a), Some(b), Some(c), Some(d)) => {
            let code = 4096 * a + 256 * b + 16 * c + d;
            if code < 0xD800 || 0xE000 <= code {
                Some(code as char)
            } else {
                None
            }
        },
        _ => None,
    }
}

/// Puts `c` before what was read, and `step` more characters on the count.
pub open spec fn read_after(c: char, step: int, rest: Option<(Seq<char>, int)>) -> Option<
    (Seq<char>, int),
> {
    match rest {
        Some((said, read)) => Some((seq![c] + said, read + step)),
        None => None,
    }
}

/// Reads a string literal from behind its opening quote up to its closing
/// one: what the literal says, and how many characters were read, the closing
/// quote among them. `None` where the text ends before the literal does,
/// where a control character stands in it, and where a backslash is followed
/// by anything but a quote, a backslash, or `u` and four hexadecimal digits.
pub open spec fn read_literal(input: Seq<char>) -> Option<(Seq<char>, int)>
    decreases input.len(),
{
    if input.len() == 0 {
        None
    } else if input[0] == '"' {
        Some((Seq::empty(), 1))
    } else if input[0] == '\\' {
        if input.len() >= 2 && (input[1] == '"' || input[1] == '\\') {
            read_after(input[1], 2, read_literal(input.skip(2)))
        } else if input.len() >= 6 && input[1] == 'u' {
            match unicode_escape(input[2], input[3], input[4], input[5]) {
                Some(c) => read_after(c, 6, read_literal(input.skip(6))),
                None => None,
            }
        } else {
            None
        }
    } else if (input[0] as int) < 0x20 {
        None
    } else {
        read_after(input[0], 1, read_literal(input.skip(1)))
    }
}

/// A hexadecimal digit that was written is read as the same number.
pub proof fn lemma_hex_round_trip(d: int)
    requires
        0 <= d < 16,
    ensures
        hex_value(hex_char(d)) == Some(d),
{
}

/// A character is its own number's character.
proof fn lemma_char_number(c: char)
    ensures
        0 <= c as int,
        (c as int) as char == c,
{
}

/// Escaping loses nothing and lets nothing through: a literal that holds the
/// escaped form of `s` is read back as `s`, and the reading stops at the
/// quote that closes the literal, whatever follows it.
pub proof fn lemma_read_escaped(s: Seq<char>, rest: Seq<char>)
    ensures
        read_literal(escaped(s) + seq!['"'] + rest) == Some((s, escaped(s).len() as int + 1)),
    decreases s.len(),
{
    let input = escaped(s) + seq!['"'] + rest;
    if s.len() == 0 {
        lemma_escaped_empty();
        assert(input[0] == '"');
        assert(s =~= Seq::<char>::empty());
    } else {
        let c = s[0];
        let tail = s.skip(1);
        let after = escaped(tail) + seq!['"'] + rest;
        lemma_escaped_front(s);
        lemma_read_escaped(tail, rest);
        assert(input =~= escaped_char(c) + after);
        assert(seq![c] + tail =~= s);
        if c == '"' || c == '\\' {
            assert(input[0] == '\\');
            assert(input[1] == c);
            assert(input.skip(2) =~= after);
        } else if (c as int) < 0x20 {
            lemma_char_number(c);
            let high = c as int / 16;
            let low = c as int % 16;
            lemma_hex_round_trip(0);
            lemma_hex_round_trip(high);
            lemma_hex_round_trip(low);
            assert(input[0] == '\\');
            assert(input[1] == 'u');
            assert(input[2] == '0');
            assert(input[3] == '0');
            assert(input[4] == hex_char(high));
            assert(input[5] == hex_char(low));
            let code = 4096 * 0 + 256 * 0 + 16 * high + low;
            assert(code == c as int);
            assert(code as char == c);
            assert(unicode_escape(input[2], input[3], input[4], input[5]) == Some(c));
            assert(input.skip(6) =~= after);
        } else {
            assert(input[0] == c);
            assert(input.skip(1) =~= after);
        }
    }
}

} // verus!
