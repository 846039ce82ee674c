//! Text building blocks: decimal rendering of integers and TOML-style
//! quoting of strings, each with an exact character-level specification.

use vstd::prelude::*;
use vstd::string::*;

verus! {

/// The character for one decimal digit.
pub open spec fn dec_digit_char(d: int) -> char {
    ((48 + d) as u8) as char
}

/// The decimal digits of `n`, most significant first, no sign, no padding.
pub open spec fn dec_digits(n: nat) -> Seq<char>
    decreases n,
{
    if n < 10 {
        seq![dec_digit_char(n as int)]
    } else {
        dec_digits(n / 10).push(dec_digit_char((n % 10) as int))
    }
}

/// The decimal rendering of a possibly negative number: a leading `-`
/// for negative values, then the digits of the magnitude.
pub open spec fn dec_signed(n: int) -> Seq<char> {
    if n < 0 {
        seq!['-'] + dec_digits((-n) as nat)
    } else {
        dec_digits(n as nat)
    }
}

/// The decimal digits of `n`, left-padded with `0` to at least two places.
pub open spec fn dec_padded2(n: nat) -> Seq<char> {
    if n < 10 {
        seq!['0', dec_digit_char(n as int)]
    } else {
        dec_digits(n)
    }
}

fn digit_char(d: u8) -> (c: char)
    requires
        d < 10,
    ensures
        c == dec_digit_char(d as int),
{
    (48 + d) as char
}

/// Renders `n` in decimal.
pub fn u32_dec_str(n: u32) -> (s: String)
    ensures
        s@ == dec_digits(n as nat),
    decreases n,
{
    if n < 10 {
        let mut s = String::new();
        push_char(&mut s, digit_char(n as u8));
        assert(s@ =~= dec_digits(n as nat));
        s
    } else {
        let mut s = u32_dec_str(n / 10);
        push_char(&mut s, digit_char((n % 10) as u8));
        s
    }
}

/// Renders `n` in decimal, with a `-` sign when negative.
pub fn i32_dec_str(n: i32) -> (s: String)
    ensures
        s@ == dec_signed(n as int),
{
    if n >= 0 {
        u32_dec_str(n as u32)
    } else {
        let magnitude: u32 = (-(n as i64)) as u32;
        let mut s = String::new();
        push_char(&mut s, '-');
        let digits = u32_dec_str(magnitude);
        string_append(&mut s, digits.as_str());
        assert(s@ =~= dec_signed(n as int));
        s
    }
}

/// Renders `n` in decimal, zero-padded to at least two places.
pub fn u32_padded2_str(n: u32) -> (s: String)
    ensures
        s@ == dec_padded2(n as nat),
{
    if n < 10 {
        let mut s = String::new();
        push_char(&mut s, '0');
        push_char(&mut s, digit_char(n as u8));
        assert(s@ =~= dec_padded2(n as nat));
        s
    } else {
        u32_dec_str(n)
    }
}

/// The escape sequence that stands for `c` inside a quoted string.
pub open spec fn escape_char(c: char) -> Seq<char> {
    if c == '"' {
        seq!['\\', '"']
    } else if c == '\\' {
        seq!['\\', '\\']
    } else if c == '\n' {
        seq!['\\', 'n']
    } else if c == '\r' {
        seq!['\\', 'r']
    } else if c == '\t' {
        seq!['\\', 't']
    } else {
        seq![c]
    }
}

/// `s` with every character replaced by its escape sequence.
pub open spec fn escaped(s: Seq<char>) -> Seq<char>
    decreases s.len(),
{
    if s.len() == 0 {
        Seq::empty()
    } else {
        escaped(s.drop_last()) + escape_char(s.last())
    }
}

/// `s` escaped and wrapped in double quotes.
pub open spec fn quoted(s: Seq<char>) -> Seq<char> {
    seq!['"'] + escaped(s) + seq!['"']
}

fn push_escaped_char(out: &mut String, c: char)
    ensures
        final(out)@ == old(out)@ + escape_char(c),
{
    let ghost base = out@;
    if c == '"' {
        push_char(out, '\\');
        push_char(out, '"');
    } else if c == '\\' {
        push_char(out, '\\');
        push_char(out, '\\');
    } else if c == '\n' {
        push_char(out, '\\');
        push_char(out, 'n');
    } else if c == '\r' {
        push_char(out, '\\');
        push_char(out, 'r');
    } else if c == '\t' {
        push_char(out, '\\');
        push_char(out, 't');
    } else {
        push_char(out, c);
    }
    assert(out@ =~= base + escape_char(c));
}

/// Appends `s` quoted and escaped to `out`.
pub fn append_quoted(out: &mut String, s: &str)
    ensures
        final(out)@ == old(out)@ + quoted(s@),
{
    let ghost base = out@;
    push_char(out, '"');
    let len = s.unicode_len();
    let mut i: usize = 0;
    while i < len
        invariant
            len == s@.len(),
            i <= len,
            out@ == base + seq!['"'] + escaped(s@.take(i as int)),
        decreases len - i,
    {
        let c = s.get_char(i);
        proof {
            let t = s@.take(i + 1);
            assert(t.drop_last() =~= s@.take(i as int));
            assert(t.last() == s@[i as int]);
        }
        push_escaped_char(out, c);
        i = i + 1;
    }
    assert(s@.take(len as int) =~= s@);
    push_char(out, '"');
    assert(out@ =~= base + quoted(s@));
}

/// Renders `s` quoted and escaped.
pub fn quote_str(s: &str) -> (r: String)
    ensures
        r@ == quoted(s@),
{
    let mut out = String::new();
    append_quoted(&mut out, s);
    assert(out@ =~= quoted(s@));
    out
}

/// Appends one character, in place.
fn push_char(s: &mut String, c: char)
    ensures
        final(s)@ == old(s)@.push(c),
{
    string_push(s, c);
}

/// Relies on std's String::push: appends the given char to the end.
#[verifier::external_body]
fn string_push(s: &mut String, c: char)
    ensures
        final(s)@ == old(s)@.push(c),
{
    s.push(c)
}

/// Appends a string slice, in place.
fn string_append(s: &mut String, other: &str)
    ensures
        final(s)@ == old(s)@ + other@,
{
    s.append(other);
}

} // verus!
