//! JSON string literals: how a text is written between quotes so that any
//! JSON reader gives the same text back.

use vstd::prelude::*;

verus! {

/// The lower-case hexadecimal digit for `n`.
pub open spec fn hex_digit(n: nat) -> char {
    if n < 10 {
        (48 + n) as u8 as char
    } else {
        (87 + n) as u8 as char
    }
}

/// How one character stands in a JSON string literal: the quote and the
/// backslash get a backslash in front, the control characters below the
/// space are written as `\b`, `\t`, `\n`, `\f`, `\r` or, the others, as `\u00`
/// and two hexadecimal digits, and every other character stands for itself.
pub open spec fn escaped(c: char) -> Seq<char> {
    let code = c as u32;
    if c == '"' {
        seq!['\\', '"']
    } else if c == '\\' {
        seq!['\\', '\\']
    } else if code == 8 {
        seq!['\\', 'b']
    } else if code == 9 {
        seq!['\\', 't']
    } else if code == 10 {
        seq!['\\', 'n']
    } else if code == 12 {
        seq!['\\', 'f']
    } else if code == 13 {
        seq!['\\', 'r']
    } else if code < 32 {
        seq!['\\', 'u', '0', '0', hex_digit((code / 16) as nat), hex_digit((code % 16) as nat)]
    } else {
        seq![c]
    }
}

/// The characters of `s`, each as it stands in a JSON string literal.
pub open spec fn escaped_text(s: Seq<char>) -> Seq<char>
    decreases s.len(),
{
    if s.len() == 0 {
        Seq::empty()
    } else {
        escaped_text(s.drop_last()) + escaped(s.last())
    }
}

/// The JSON string literal for `s`: its characters between two quotes.
pub open spec fn json_literal(s: Seq<char>) -> Seq<char> {
    seq!['"'] + escaped_text(s) + seq!['"']
}

/// The lower-case hexadecimal digit for a number below sixteen.
fn write_hex_digit(n: u8) -> (digit: char)
    requires
        n < 16,
    ensures
        digit == hex_digit(n as nat),
{
    if n < 10 {
        (48 + n) as char
    } else {
        (87 + n) as char
    }
}

/// Appends `c` to `out` as it stands in a JSON string literal.
pub fn push_escaped(out: &mut String, c: char)
    ensures
        final(out)@ == old(out)@ + escaped(c),
{
    let code = c as u32;
    if c == '"' {
        out.push('\\');
        out.push('"');
    } else if c == '\\' {
        out.push('\\');
        out.push('\\');
    } else if code == 8 {
        out.push('\\');
        out.push('b');
    } else if code == 9 {
        out.push('\\');
        out.push('t');
    } else if code == 10 {
        out.push('\\');
        out.push('n');
    } else if code == 12 {
        out.push('\\');
        out.push('f');
    } else if code == 13 {
        out.push('\\');
        out.push('r');
    } else if code < 32 {
        out.push('\\');
        out.push('u');
        out.push('0');
        out.push('0');
        out.push(write_hex_digit((code / 16) as u8));
        out.push(write_hex_digit((code % 16) as u8));
    } else {
        out.push(c);
    }
    assert(out@ =~= old(out)@ + escaped(c));
}

/// Writes `s` as a JSON string literal.
pub fn json_string(s: &str) -> (literal: String)
    ensures
        literal@ == json_literal(s@),
{
    let mut literal = String::new();
    literal.push('"');
    for c in it: s.chars()
        invariant
            it.seq() == s@,
            literal@ == seq!['"'] + escaped_text(s@.take(it.index() as int)),
    {
        proof {
            let seen = s@.take(it.index() + 1);
            assert(seen.drop_last() == s@.take(it.index() as int));
            assert(seen.last() == c);
        }
        push_escaped(&mut literal, c);
    }
    assert(s@.take(s@.len() as int) == s@);
    literal.push('"');
    literal
}

} // verus!
