use vstd::prelude::*;

use crate::types::{Gboolean, FALSE};

verus! {

/// Whether a foreign boolean is true: anything but zero is.
pub fn is_true(v: Gboolean) -> (b: bool)
    ensures
        b == (v != FALSE),
{
    v != FALSE
}

/// Whether a foreign boolean is false: only zero is.
pub fn is_false(v: Gboolean) -> (b: bool)
    ensures
        b == (v == FALSE),
{
    v == FALSE
}

/// The lower-case hex digit of `d`, below 16.
pub open spec fn hex_digit(d: u8) -> char {
    if d < 10 {
        ((48 + d) as u8) as char
    } else {
        ((87 + d) as u8) as char
    }
}

/// A byte in the default ASCII escape: tab, return and newline as `\t`, `\r`,
/// `\n`; quotes and backslash behind a backslash; other printable ASCII as it
/// is; everything else as `\x` and two lower-case hex digits.
pub open spec fn escape_byte(b: u8) -> Seq<char> {
    if b == 9 {
        seq!['\\', 't']
    } else if b == 13 {
        seq!['\\', 'r']
    } else if b == 10 {
        seq!['\\', 'n']
    } else if b == 39 || b == 34 || b == 92 {
        seq!['\\', b as char]
    } else if 0x20 <= b <= 0x7e {
        seq![b as char]
    } else {
        seq!['\\', 'x', hex_digit(b / 16), hex_digit(b % 16)]
    }
}

/// Every byte of `s`, escaped, in order.
pub open spec fn escape_all(s: Seq<u8>) -> Seq<char>
    decreases s.len(),
{
    if s.len() == 0 {
        Seq::empty()
    } else {
        escape_all(s.drop_last()) + escape_byte(s.last())
    }
}

/// Whether every byte of `s` is ASCII.
pub open spec fn all_ascii(s: Seq<u8>) -> bool {
    forall|i: int| 0 <= i < s.len() ==> s[i] < 128
}

/// A byte string as text: ASCII bytes as they are when all of them are ASCII,
/// else every byte escaped.
pub open spec fn escaped(s: Seq<u8>) -> Seq<char> {
    if all_ascii(s) {
        s.map_values(|b: u8| b as char)
    } else {
        escape_all(s)
    }
}

/// Relies on String::push: it appends one character.
#[verifier::external_body]
fn push_char(s: &mut String, c: char)
    ensures
        final(s)@ == old(s)@.push(c),
{
    s.push(c)
}

fn hex_digit_char(d: u8) -> (c: char)
    requires
        d < 16,
    ensures
        c == hex_digit(d),
{
    if d < 10 {
        (48 + d) as char
    } else {
        (87 + d) as char
    }
}

fn push_escaped_byte(out: &mut String, b: u8)
    ensures
        final(out)@ == old(out)@ + escape_byte(b),
{
    let ghost start = out@;
    if b == 9 {
        push_char(out, '\\');
        push_char(out, 't');
    } else if b == 13 {
        push_char(out, '\\');
        push_char(out, 'r');
    } else if b == 10 {
        push_char(out, '\\');
        push_char(out, 'n');
    } else if b == 39 || b == 34 || b == 92 {
        push_char(out, '\\');
        push_char(out, b as char);
    } else if 0x20 <= b && b <= 0x7e {
        push_char(out, b as char);
    } else {
        push_char(out, '\\');
        push_char(out, 'x');
        push_char(out, hex_digit_char(b / 16));
        push_char(out, hex_digit_char(b % 16));
    }
    assert(out@ =~= start + escape_byte(b));
}

/// Renders a byte string as text: unchanged when it is all ASCII, else with
/// every byte in the default ASCII escape.
pub fn escape_bytestring(s: &[u8]) -> (r: String)
    ensures
        r@ == escaped(s@),
{
    let mut ascii = true;
    let mut i: usize = 0;
    while i < s.len()
        invariant
            i <= s@.len(),
            ascii == (forall|j: int| 0 <= j < i ==> s@[j] < 128),
        decreases s@.len() - i,
    {
        if s[i] >= 128 {
            ascii = false;
        }
        i = i + 1;
    }
    let mut out = String::new();
    let mut k: usize = 0;
    if ascii {
        while k < s.len()
            invariant
                k <= s@.len(),
                out@ =~= s@.subrange(0, k as int).map_values(|b: u8| b as char),
            decreases s@.len() - k,
        {
            push_char(&mut out, s[k] as char);
            k = k + 1;
        }
        assert(s@.subrange(0, s@.len() as int) =~= s@);
    } else {
        while k < s.len()
            invariant
                k <= s@.len(),
                out@ == escape_all(s@.subrange(0, k as int)),
            decreases s@.len() - k,
        {
            push_escaped_byte(&mut out, s[k]);
            assert(s@.subrange(0, k + 1).drop_last() =~= s@.subrange(0, k as int));
            k = k + 1;
        }
        assert(s@.subrange(0, s@.len() as int) =~= s@);
    }
    out
}

} // verus!
