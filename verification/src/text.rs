//! Pieces of text that a status line is put together from: decimal numbers
//! and runs of one glyph.

use vstd::prelude::*;

verus! {

/// `String::push` appends the given character to the end of the string and
/// leaves what stood before it unchanged. The standard library documents
/// this; it is taken on trust here.
pub assume_specification[ String::push ](s: &mut String, ch: char)
    ensures
        final(s)@ == old(s)@.push(ch),
;

/// The character that stands for a single decimal digit.
pub open spec fn digit_char(d: nat) -> char
    recommends
        d < 10,
{
    ('0' as u8 + d) as char
}

/// Decimal notation of `n`: most significant digit first, no leading
/// zeros, `0` for zero.
pub open spec fn decimal(n: nat) -> Seq<char>
    decreases n,
{
    if n < 10 {
        seq![digit_char(n)]
    } else {
        decimal(n / 10).push(digit_char(n % 10))
    }
}

/// `count` copies of `glyph`.
pub open spec fn run(glyph: char, count: nat) -> Seq<char> {
    Seq::new(count, |i: int| glyph)
}

/// Gives the character of a decimal digit.
pub fn digit(d: u8) -> (c: char)
    requires
        d < 10,
    ensures
        c == digit_char(d as nat),
{
    ('0' as u8 + d) as char
}

/// Appends the decimal notation of `n` to `out`.
pub fn push_decimal(out: &mut String, n: usize)
    ensures
        final(out)@ == old(out)@ + decimal(n as nat),
    decreases n,
{
    if n >= 10 {
        push_decimal(out, n / 10);
    }
    out.push(digit((n % 10) as u8));
}

/// Appends `count` copies of `glyph` to `out`.
pub fn push_run(out: &mut String, glyph: char, count: usize)
    ensures
        final(out)@ == old(out)@ + run(glyph, count as nat),
{
    let mut done: usize = 0;
    while done < count
        invariant
            done <= count,
            out@ == old(out)@ + run(glyph, done as nat),
        decreases count - done,
    {
        out.push(glyph);
        done += 1;
    }
}

} // verus!
