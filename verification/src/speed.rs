//! Human-readable transfer speeds, such as `512.0 KB/s` or `2.0 MB/s`.
//!
//! A speed is shown in kilobytes per second below one megabyte per second and
//! in megabytes per second from there on (1 KB = 1024 bytes, 1 MB = 1024 KB),
//! with one decimal, rounded to the nearest tenth and ties to an even last
//! digit.

use vstd::prelude::*;

verus! {

/// Bytes in a kilobyte.
pub const BYTES_PER_KB: u64 = 1024;

/// Bytes in a megabyte.
pub const BYTES_PER_MB: u64 = 1048576;

/// The character of the decimal digit `d`.
pub open spec fn digit_char(d: int) -> char {
    if d == 0 {
        '0'
    } else if d == 1 {
        '1'
    } else if d == 2 {
        '2'
    } else if d == 3 {
        '3'
    } else if d == 4 {
        '4'
    } else if d == 5 {
        '5'
    } else if d == 6 {
        '6'
    } else if d == 7 {
        '7'
    } else if d == 8 {
        '8'
    } else {
        '9'
    }
}

/// The decimal notation of `n`, without leading zeros.
pub open spec fn decimal(n: nat) -> Seq<char>
    decreases n,
{
    if n < 10 {
        seq![digit_char(n as int)]
    } else {
        decimal(n / 10).push(digit_char((n % 10) as int))
    }
}

/// `num / den` rounded to the nearest integer, ties to the even one.
pub open spec fn round_half_even(num: nat, den: nat) -> nat
    recommends
        den > 0,
{
    let q = num / den;
    let r = num % den;
    if 2 * r > den {
        q + 1
    } else if 2 * r < den {
        q
    } else if q % 2 == 0 {
        q
    } else {
        q + 1
    }
}

/// A count of tenths written with one decimal: `5120` gives `512.0`.
pub open spec fn tenths_text(tenths: nat) -> Seq<char> {
    decimal(tenths / 10).push('.').push(digit_char((tenths % 10) as int))
}

/// The label of a speed of `bytes_per_sec` bytes per second.
pub open spec fn speed_label(bytes_per_sec: nat) -> Seq<char> {
    if bytes_per_sec < BYTES_PER_MB {
        tenths_text(round_half_even(bytes_per_sec * 10, BYTES_PER_KB as nat)) + " KB/s"@
    } else {
        tenths_text(round_half_even(bytes_per_sec * 10, BYTES_PER_MB as nat)) + " MB/s"@
    }
}

/// Calls `String::push`, which std documents as appending the given `char`
/// to the end of the string. Trusted: the contract claims that the string's
/// characters become the old ones followed by `c`, and nothing else.
#[verifier::external_body]
fn push_char(s: &mut String, c: char)
    ensures
        final(s)@ == old(s)@.push(c),
{
    s.push(c);
}

fn digit(d: u64) -> (c: char)
    requires
        d < 10,
    ensures
        c == digit_char(d as int),
{
    if d == 0 {
        '0'
    } else if d == 1 {
        '1'
    } else if d == 2 {
        '2'
    } else if d == 3 {
        '3'
    } else if d == 4 {
        '4'
    } else if d == 5 {
        '5'
    } else if d == 6 {
        '6'
    } else if d == 7 {
        '7'
    } else if d == 8 {
        '8'
    } else {
        '9'
    }
}

fn push_decimal(s: &mut String, n: u64)
    ensures
        final(s)@ == old(s)@ + decimal(n as nat),
    decreases n,
{
    if n >= 10 {
        push_decimal(s, n / 10);
    }
    push_char(s, digit(n % 10));
    assert(final(s)@ =~= old(s)@ + decimal(n as nat)) by {
        if n >= 10 {
            assert((old(s)@ + decimal((n / 10) as nat)).push(digit_char((n % 10) as int))
                =~= old(s)@ + decimal((n / 10) as nat).push(digit_char((n % 10) as int)));
        }
    }
}

fn push_tenths(s: &mut String, tenths: u64)
    ensures
        final(s)@ == old(s)@ + tenths_text(tenths as nat),
{
    push_decimal(s, tenths / 10);
    push_char(s, '.');
    push_char(s, digit(tenths % 10));
    assert(final(s)@ =~= old(s)@ + tenths_text(tenths as nat));
}

fn round_half_even_u128(num: u128, den: u128) -> (r: u128)
    requires
        den > 0,
        num / den < u128::MAX,
    ensures
        r == round_half_even(num as nat, den as nat),
{
    let q = num / den;
    let rem = num % den;
    if rem > den - rem {
        q + 1
    } else if rem < den - rem {
        q
    } else if q % 2 == 0 {
        q
    } else {
        q + 1
    }
}

/// The label of a speed of `bytes_per_sec` bytes per second: kilobytes per
/// second below one megabyte per second, megabytes per second from there on,
/// with one decimal.
pub fn format_speed(bytes_per_sec: u64) -> (s: String)
    ensures
        s@ == speed_label(bytes_per_sec as nat),
{
    let scaled: u128 = bytes_per_sec as u128 * 10;
    let mut s = String::new();
    if bytes_per_sec < BYTES_PER_MB {
        assert(scaled / 1024 < 10240) by (nonlinear_arith)
            requires
                scaled < 10485760,
        ;
        let tenths = round_half_even_u128(scaled, 1024);
        push_tenths(&mut s, tenths as u64);
        s.append(" KB/s");
    } else {
        assert(scaled / 1048576 < 0x1000_0000_0000_0000) by (nonlinear_arith)
            requires
                scaled <= 0xffff_ffff_ffff_ffff * 10,
        ;
        let tenths = round_half_even_u128(scaled, 1048576);
        push_tenths(&mut s, tenths as u64);
        s.append(" MB/s");
    }
    s
}

} // verus!
