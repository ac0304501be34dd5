//! JSON text production.
//!
//! The JSON emitted for a response is specified character by character:
//! [`escape_seq`] gives the escaped body of a JSON string, [`json_string`]
//! the quoted form, and [`int_json`] the decimal rendering of an integer.
//! The executable emitters are proved to produce exactly those sequences.

use vstd::prelude::*;

verus! {

/// A value that serializes itself to JSON text whose exact character
/// sequence is given by `json_view`.
pub trait ToJson {
    /// The JSON text of this value, as a sequence of characters.
    spec fn json_view(&self) -> Seq<char>;

    /// Produce the JSON text of this value.
    fn to_json(&self) -> (r: String)
        ensures
            r@ == self.json_view(),
    ;
}

/// The decimal digit character for `d` (only meaningful for `d < 10`).
pub open spec fn digit_char(d: nat) -> char {
    if d == 0 {
        '0'
    } else if d == 1 {
        '1'
    } else if d == 2 {
        '2'
    } else if d == 3 {
        '3'
    } else if d == 4 {
        '4'
    } else if d == 5 {
        '5'
    } else if d == 6 {
        '6'
    } else if d == 7 {
        '7'
    } else if d == 8 {
        '8'
    } else {
        '9'
    }
}

/// The lower-case hexadecimal digit character for `d` (only meaningful for
/// `d < 16`).
pub open spec fn hex_digit(d: nat) -> char {
    if d < 10 {
        digit_char(d)
    } else if d == 10 {
        'a'
    } else if d == 11 {
        'b'
    } else if d == 12 {
        'c'
    } else if d == 13 {
        'd'
    } else if d == 14 {
        'e'
    } else {
        'f'
    }
}

/// The decimal digit sequence of `n`, most significant digit first, with no
/// leading zeros (a single `'0'` for zero).
pub open spec fn dec_digits(n: nat) -> Seq<char>
    decreases n,
{
    if n < 10 {
        seq![digit_char(n)]
    } else {
        dec_digits(n / 10) + seq![digit_char(n % 10)]
    }
}

/// The JSON rendering of an integer: decimal digits, with a leading `'-'`
/// for a negative value.
pub open spec fn int_json(n: int) -> Seq<char> {
    if n < 0 {
        seq!['-'] + dec_digits((-n) as nat)
    } else {
        dec_digits(n as nat)
    }
}

/// How one character appears inside a JSON string: `'"'` and `'\\'` take a
/// backslash, the named control characters take their short escapes, the
/// remaining control characters take a `\u00XX` escape, and every other
/// character stands for itself.
pub open spec fn escape_char(c: char) -> Seq<char> {
    let v = c as u32;
    if v == 0x22 {
        seq!['\\', '"']
    } else if v == 0x5c {
        seq!['\\', '\\']
    } else if v == 0x08 {
        seq!['\\', 'b']
    } else if v == 0x09 {
        seq!['\\', 't']
    } else if v == 0x0a {
        seq!['\\', 'n']
    } else if v == 0x0c {
        seq!['\\', 'f']
    } else if v == 0x0d {
        seq!['\\', 'r']
    } else if v < 0x20 {
        seq!['\\', 'u', '0', '0', hex_digit((v / 16) as nat), hex_digit((v % 16) as nat)]
    } else {
        seq![c]
    }
}

/// The escaped body of a JSON string holding the characters `s`.
pub open spec fn escape_seq(s: Seq<char>) -> Seq<char>
    decreases s.len(),
{
    if s.len() == 0 {
        Seq::empty()
    } else {
        escape_seq(s.drop_last()) + escape_char(s.last())
    }
}

/// The complete JSON string literal holding the characters `s`: the escaped
/// body between double quotes.
pub open spec fn json_string(s: Seq<char>) -> Seq<char> {
    seq!['"'] + escape_seq(s) + seq!['"']
}

/// Relies on `String::push`: appends the given character to the end of the
/// string.
#[verifier::external_body]
pub(crate) fn push_char(out: &mut String, c: char)
    ensures
        final(out)@ == old(out)@ + seq![c],
{
    out.push(c);
}

fn digit_char_exec(d: u32) -> (c: char)
    requires
        d < 10,
    ensures
        c == digit_char(d as nat),
{
    if d == 0 {
        '0'
    } else if d == 1 {
        '1'
    } else if d == 2 {
        '2'
    } else if d == 3 {
        '3'
    } else if d == 4 {
        '4'
    } else if d == 5 {
        '5'
    } else if d == 6 {
        '6'
    } else if d == 7 {
        '7'
    } else if d == 8 {
        '8'
    } else {
        '9'
    }
}

fn hex_digit_exec(d: u32) -> (c: char)
    requires
        d < 16,
    ensures
        c == hex_digit(d as nat),
{
    if d < 10 {
        digit_char_exec(d)
    } else if d == 10 {
        'a'
    } else if d == 11 {
        'b'
    } else if d == 12 {
        'c'
    } else if d == 13 {
        'd'
    } else if d == 14 {
        'e'
    } else {
        'f'
    }
}

/// Append the decimal digits of `n` to `out`.
pub(crate) fn push_dec(out: &mut String, n: u32)
    ensures
        final(out)@ == old(out)@ + dec_digits(n as nat),
    decreases n,
{
    if n >= 10 {
        push_dec(out, n / 10);
    }
    let c = digit_char_exec(n % 10);
    push_char(out, c);
    proof {
        if n < 10 {
            assert(n % 10 == n);
            assert(out@ =~= old(out)@ + dec_digits(n as nat));
        } else {
            assert(out@ =~= old(out)@ + dec_digits(n as nat));
        }
    }
}

/// Append the JSON rendering of `n` to `out`.
pub(crate) fn push_i32(out: &mut String, n: i32)
    ensures
        final(out)@ == old(out)@ + int_json(n as int),
{
    if n < 0 {
        push_char(out, '-');
        let wide: i64 = n as i64;
        let m: u32 = (-wide) as u32;
        proof {
            assert(m as nat == (-(n as int)) as nat);
        }
        push_dec(out, m);
        proof {
            assert(out@ =~= old(out)@ + int_json(n as int));
        }
    } else {
        push_dec(out, n as u32);
    }
}

/// Append the escape of the single character `c` to `out`.
fn push_escaped_char(out: &mut String, c: char)
    ensures
        final(out)@ == old(out)@ + escape_char(c),
{
    let v = c as u32;
    if v == 0x22 {
        push_char(out, '\\');
        push_char(out, '"');
    } else if v == 0x5c {
        push_char(out, '\\');
        push_char(out, '\\');
    } else if v == 0x08 {
        push_char(out, '\\');
        push_char(out, 'b');
    } else if v == 0x09 {
        push_char(out, '\\');
        push_char(out, 't');
    } else if v == 0x0a {
        push_char(out, '\\');
        push_char(out, 'n');
    } else if v == 0x0c {
        push_char(out, '\\');
        push_char(out, 'f');
    } else if v == 0x0d {
        push_char(out, '\\');
        push_char(out, 'r');
    } else if v < 0x20 {
        push_char(out, '\\');
        push_char(out, 'u');
        push_char(out, '0');
        push_char(out, '0');
        let h = hex_digit_exec(v / 16);
        push_char(out, h);
        let l = hex_digit_exec(v % 16);
        push_char(out, l);
    } else {
        push_char(out, c);
    }
    proof {
        assert(out@ =~= old(out)@ + escape_char(c));
    }
}

/// Append the complete JSON string literal holding the characters of `s`
/// to `out`.
pub(crate) fn push_json_string(out: &mut String, s: &str)
    ensures
        final(out)@ == old(out)@ + json_string(s@),
{
    push_char(out, '"');
    let n = s.unicode_len();
    let mut i: usize = 0;
    while i < n
        invariant
            n == s@.len(),
            i <= n,
            out@ == old(out)@ + seq!['"'] + escape_seq(s@.subrange(0, i as int)),
        decreases n - i,
    {
        let c = s.get_char(i);
        push_escaped_char(out, c);
        proof {
            let pre = s@.subrange(0, i as int);
            let post = s@.subrange(0, i as int + 1);
            assert(post.drop_last() =~= pre);
            assert(post.last() == s@[i as int]);
            assert(out@ =~= old(out)@ + seq!['"'] + escape_seq(post));
        }
        i += 1;
    }
    push_char(out, '"');
    proof {
        assert(s@.subrange(0, n as int) =~= s@);
        assert(out@ =~= old(out)@ + json_string(s@));
    }
}

} // verus!
