//! Byte counts as text for people: a count below 1024 in bytes, a larger one
//! in the largest binary unit that it reaches, with two decimal places.
//!
//! The two decimal places are those of the binary fraction nearest to the
//! count: a count of 2^53 bytes or more is first rounded to 53 significant
//! bits, and the scaled value is then rounded to hundredths. Both roundings
//! go to the nearest value and, halfway between two, to the even one. The
//! text is thus the one that a division in double precision gives when it
//! is printed with two places.

use vstd::arithmetic::div_mod::lemma_fundamental_div_mod;
use vstd::prelude::*;

verus! {

/// Bytes in a kilobyte.
pub const KB: u64 = 1024;

/// Bytes in a megabyte.
pub const MB: u64 = 1_048_576;

/// Bytes in a gigabyte.
pub const GB: u64 = 1_073_741_824;

/// The least count that is rounded before it is scaled: 2^53.
pub const ROUNDED_FROM: u64 = 0x20_0000_0000_0000;

/// The character for a decimal digit.
pub open spec fn digit(d: nat) -> char {
    if d == 0 {
        '0'
    } else if d == 1 {
        '1'
    } else if d == 2 {
        '2'
    } else if d == 3 {
        '3'
    } else if d == 4 {
        '4'
    } else if d == 5 {
        '5'
    } else if d == 6 {
        '6'
    } else if d == 7 {
        '7'
    } else if d == 8 {
        '8'
    } else {
        '9'
    }
}

/// A number in decimal, without leading zeros.
pub open spec fn decimal(n: nat) -> Seq<char>
    decreases n,
{
    if n < 10 {
        seq![digit(n)]
    } else {
        decimal(n / 10).push(digit(n % 10))
    }
}

/// The quotient `n / d` rounded to the nearest whole number, and to the even
/// one where two are equally near.
pub open spec fn round_half_even(n: nat, d: nat) -> nat
    recommends
        d > 0,
{
    let q = n / d;
    let r = n % d;
    if 2 * r < d || (2 * r == d && q % 2 == 0) {
        q
    } else {
        q + 1
    }
}

/// The distance between neighbouring values of 53 significant bits around
/// `n`: 1 below 2^53, and twice as much with each further bit.
pub open spec fn spacing(n: nat) -> nat
    decreases n,
{
    if n < ROUNDED_FROM {
        1
    } else {
        2 * spacing(n / 2)
    }
}

/// `n` rounded to 53 significant bits.
pub open spec fn rounded(n: nat) -> nat {
    round_half_even(n, spacing(n)) * spacing(n)
}

/// A byte count in hundredths of `unit`.
pub open spec fn hundredths(size: nat, unit: nat) -> nat
    recommends
        unit > 0,
{
    round_half_even(rounded(size) * 100, unit)
}

/// A number of hundredths as a decimal with two places.
pub open spec fn two_places(h: nat) -> Seq<char> {
    decimal(h / 100) + "."@ + seq![digit(h / 10 % 10), digit(h % 10)]
}

/// A byte count as text.
pub open spec fn formatted_size(size: nat) -> Seq<char> {
    if size >= GB {
        two_places(hundredths(size, GB as nat)) + " GB"@
    } else if size >= MB {
        two_places(hundredths(size, MB as nat)) + " MB"@
    } else if size >= KB {
        two_places(hundredths(size, KB as nat)) + " KB"@
    } else {
        decimal(size) + " B"@
    }
}

/// Rounding picks a nearest whole number: the rounded quotient is off by at
/// most a half, and where it is off by just a half it is even.
pub proof fn lemma_round_half_even_is_nearest(n: nat, d: nat)
    requires
        d > 0,
    ensures
        -(d as int) <= 2 * (round_half_even(n, d) * d - n) <= d,
        2 * (round_half_even(n, d) * d - n) == d || 2 * (n - round_half_even(n, d) * d) == d
            ==> round_half_even(n, d) % 2 == 0,
{
    let q = n / d;
    lemma_fundamental_div_mod(n as int, d as int);
    assert((q + 1) * d == q * d + d) by (nonlinear_arith);
}

/// The spacing at `n` leaves `n` 53 significant bits and no more: `n` lies
/// below 2^53 steps, and from 2^53 on at or above 2^52 steps.
pub proof fn lemma_spacing_leaves_53_bits(n: nat)
    ensures
        spacing(n) >= 1,
        n < 0x20_0000_0000_0000 * spacing(n),
        n >= ROUNDED_FROM ==> n >= 0x10_0000_0000_0000 * spacing(n),
    decreases n,
{
    if n >= ROUNDED_FROM {
        lemma_spacing_leaves_53_bits(n / 2);
    }
}

/// A count below 2^53 is not rounded before it is scaled.
pub proof fn lemma_small_counts_are_exact(n: nat)
    requires
        n < ROUNDED_FROM,
    ensures
        rounded(n) == n,
{
    assert(spacing(n) == 1);
}

/// One decimal digit as text.
fn digit_str(d: u64) -> (s: &'static str)
    requires
        d < 10,
    ensures
        s@ == seq![digit(d as nat)],
{
    proof {
        reveal_strlit("0");
        reveal_strlit("1");
        reveal_strlit("2");
        reveal_strlit("3");
        reveal_strlit("4");
        reveal_strlit("5");
        reveal_strlit("6");
        reveal_strlit("7");
        reveal_strlit("8");
        reveal_strlit("9");
    }
    if d == 0 {
        "0"
    } else if d == 1 {
        "1"
    } else if d == 2 {
        "2"
    } else if d == 3 {
        "3"
    } else if d == 4 {
        "4"
    } else if d == 5 {
        "5"
    } else if d == 6 {
        "6"
    } else if d == 7 {
        "7"
    } else if d == 8 {
        "8"
    } else {
        "9"
    }
}

/// Appends a number in decimal.
fn push_decimal(out: &mut String, n: u64)
    ensures
        final(out)@ == old(out)@ + decimal(n as nat),
    decreases n,
{
    if n >= 10 {
        push_decimal(out, n / 10);
    }
    out.append(digit_str(n % 10));
}

/// Appends a number of hundredths as a decimal with two places.
fn push_two_places(out: &mut String, h: u64)
    ensures
        final(out)@ == old(out)@ + two_places(h as nat),
{
    push_decimal(out, h / 100);
    out.append(".");
    out.append(digit_str(h / 10 % 10));
    out.append(digit_str(h % 10));
}

/// The quotient `n / d`, rounded to the nearest whole number and to the even
/// one of two.
fn round_half_even_of(n: u128, d: u128) -> (q: u128)
    requires
        0 < d <= u64::MAX,
        n < u128::MAX,
    ensures
        q == round_half_even(n as nat, d as nat),
        q <= n / d + 1,
{
    let q = n / d;
    let r = n % d;
    if 2 * r < d || (2 * r == d && q % 2 == 0) {
        q
    } else {
        q + 1
    }
}

/// The distance between neighbouring values of 53 significant bits around
/// `n`. It is at most 2^11, as `n` has 64 bits.
fn spacing_of(n: u64) -> (step: u64)
    ensures
        step == spacing(n as nat),
        step >= 1,
        step == 1 || step * 0x10_0000_0000_0000 <= n,
    decreases n,
{
    if n < ROUNDED_FROM {
        1
    } else {
        2 * spacing_of(n / 2)
    }
}

/// `n` rounded to 53 significant bits. The result may be 2^64, so it is
/// given in 128 bits.
fn rounded_of(n: u64) -> (r: u128)
    ensures
        r == rounded(n as nat),
        r <= 0x1_0000_0000_0000_1000,
{
    let step = spacing_of(n);
    let q = round_half_even_of(n as u128, step as u128);
    proof {
        lemma_fundamental_div_mod(n as int, step as int);
        assert(q * step <= n + step) by (nonlinear_arith)
            requires
                q <= (n as int) / (step as int) + 1,
                n as int == (step as int) * ((n as int) / (step as int)) + (n as int) % (
                step as int),
                0 <= (n as int) % (step as int),
                step > 0,
        ;
    }
    q * (step as u128)
}

/// A byte count in hundredths of `unit`.
fn hundredths_of(size: u64, unit: u64) -> (h: u64)
    requires
        unit >= KB,
    ensures
        h == hundredths(size as nat, unit as nat),
{
    let scaled = rounded_of(size) * 100;
    let h = round_half_even_of(scaled, unit as u128);
    assert(h <= u64::MAX) by {
        assert(scaled / (unit as u128) <= scaled / 1024) by (nonlinear_arith)
            requires
                unit >= 1024,
        ;
    }
    h as u64
}

/// Renders a byte count: below 1024 as a whole number of bytes, from there on
/// in KB, MB or GB, whichever is the largest that the count reaches, with two
/// decimal places.
pub fn format_size(size: u64) -> (text: String)
    ensures
        text@ == formatted_size(size as nat),
{
    let mut out = String::new();
    if size >= GB {
        push_two_places(&mut out, hundredths_of(size, GB));
        out.append(" GB");
    } else if size >= MB {
        push_two_places(&mut out, hundredths_of(size, MB));
        out.append(" MB");
    } else if size >= KB {
        push_two_places(&mut out, hundredths_of(size, KB));
        out.append(" KB");
    } else {
        push_decimal(&mut out, size);
        out.append(" B");
    }
    out
}

} // verus!
