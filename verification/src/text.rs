//! Text building blocks shared by the modules: appending characters,
//! comparing texts and writing numbers in decimal.

use vstd::prelude::*;

verus! {

/// `String::push` of the standard library: the character is appended, and
/// nothing else of the string changes.
pub assume_specification[ String::push ](s: &mut String, ch: char)
    ensures
        final(s)@ == old(s)@.push(ch),
;

/// The characters of each text of a list.
pub open spec fn texts(list: Seq<String>) -> Seq<Seq<char>> {
    list.map_values(|text: String| text@)
}

/// The text that `Debug` of the standard library writes for a list of
/// strings: the strings as quoted literals, between square brackets.
pub uninterp spec fn list_debug_text(list: Seq<Seq<char>>) -> Seq<char>;

/// `Debug` of the standard library for a vector of strings, through
/// `format!`. The contract only gives the text its name, `list_debug_text`.
#[verifier::external_body]
pub(crate) fn debug_list(list: &Vec<String>) -> (text: String)
    ensures
        text@ == list_debug_text(texts(list@)),
{
    format!("{:?}", list)
}

/// Whether two texts hold the same characters.
pub fn same_text(a: &str, b: &str) -> (same: bool)
    ensures
        same == (a@ == b@),
{
    let left = a.to_string();
    let right = b.to_string();
    left == right
}

/// The character that writes the digit `d`.
pub open spec fn digit_char(d: nat) -> char {
    (48 + d) as u8 as char
}

/// `n` in decimal notation, without leading zeros.
pub open spec fn nat_decimal(n: nat) -> Seq<char>
    decreases n,
{
    if n < 10 {
        seq![digit_char(n)]
    } else {
        nat_decimal(n / 10).push(digit_char(n % 10))
    }
}

/// Appends `n` in decimal notation to `out`.
pub fn push_decimal(out: &mut String, n: u64)
    ensures
        final(out)@ == old(out)@ + nat_decimal(n as nat),
    decreases n,
{
    if n >= 10 {
        push_decimal(out, n / 10);
    }
    let digit: u8 = (n % 10) as u8;
    out.push((48u8 + digit) as char);
    proof {
        if n >= 10 {
            assert((old(out)@ + nat_decimal((n / 10) as nat)).push(digit_char((n % 10) as nat))
                == old(out)@ + nat_decimal(n as nat));
        } else {
            assert(old(out)@.push(digit_char(n as nat)) == old(out)@ + nat_decimal(n as nat));
        }
    }
}

} // verus!
