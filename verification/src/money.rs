//! Fixed-point amounts and their textual rendering. Money is held in cents,
//! rate factors in parts per million (1.25 is 1_250_000).

use vstd::prelude::*;
use crate::text::{decimal, digit_char, digit_char_exec, push_char, push_decimal};

verus! {

/// One, in parts per million.
pub const PPM: i64 = 1_000_000;

/// `num / den` rounded to the nearest integer, ties to the even neighbour.
pub open spec fn round_half_even(num: nat, den: nat) -> nat
    recommends
        den > 0,
{
    let q = num / den;
    let r = num % den;
    if 2 * r > den || (2 * r == den && q % 2 == 1) {
        q + 1
    } else {
        q
    }
}

pub open spec fn abs(x: int) -> nat {
    if x < 0 {
        (-x) as nat
    } else {
        x as nat
    }
}

/// A signed integer as text, `-` first when negative.
pub open spec fn signed_text(n: int) -> Seq<char> {
    if n < 0 {
        seq!['-'] + decimal(abs(n))
    } else {
        decimal(abs(n))
    }
}

/// An amount in cents as whole currency units (two-place values rounded
/// to the nearest unit, ties to even), `-` first when negative.
pub open spec fn whole_units_text(cents: int) -> Seq<char> {
    if cents < 0 {
        seq!['-'] + decimal(round_half_even(abs(cents), 100))
    } else {
        decimal(round_half_even(abs(cents), 100))
    }
}

/// A count of hundredths as `units.hh`.
pub open spec fn two_places(n: nat) -> Seq<char> {
    decimal(n / 100) + seq!['.', digit_char(((n / 10) % 10) as int), digit_char((n % 10) as int)]
}

/// The ratio `c / v` with two decimal places (ties to even), `-` first when
/// the ratio is negative.
pub open spec fn ratio_text(c: int, v: int) -> Seq<char>
    recommends
        v != 0,
{
    let body = two_places(round_half_even(abs(c) * 100, abs(v)));
    if c != 0 && ((c < 0) != (v < 0)) {
        seq!['-'] + body
    } else {
        body
    }
}

fn abs_exec(x: i64) -> (r: u128)
    ensures
        r == abs(x as int),
{
    if x < 0 {
        (-(x as i128)) as u128
    } else {
        x as u128
    }
}

fn round_half_even_exec(num: u128, den: u128) -> (r: u128)
    requires
        den > 0,
        num < 0x1_0000_0000_0000_0000_0000_0000,
        den < 0x1_0000_0000_0000_0000_0000_0000,
    ensures
        r == round_half_even(num as nat, den as nat),
{
    let q = num / den;
    let rem = num % den;
    if 2 * rem > den || (2 * rem == den && q % 2 == 1) {
        q + 1
    } else {
        q
    }
}

/// Appends `n` as signed decimal text.
pub fn push_signed(s: &mut String, n: i64)
    ensures
        final(s)@ == old(s)@ + signed_text(n as int),
{
    let ghost before = s@;
    if n < 0 {
        push_char(s, '-');
    }
    push_decimal(s, abs_exec(n));
    assert(s@ =~= before + signed_text(n as int));
}

/// Appends an amount in cents as whole currency units.
pub fn push_whole_units(s: &mut String, cents: i64)
    ensures
        final(s)@ == old(s)@ + whole_units_text(cents as int),
{
    let ghost before = s@;
    if cents < 0 {
        push_char(s, '-');
    }
    push_decimal(s, round_half_even_exec(abs_exec(cents), 100));
    assert(s@ =~= before + whole_units_text(cents as int));
}

/// Appends `c / v` with two decimal places.
pub fn push_ratio(s: &mut String, c: i64, v: i64)
    requires
        v != 0,
    ensures
        final(s)@ == old(s)@ + ratio_text(c as int, v as int),
{
    let ghost before = s@;
    if c != 0 && ((c < 0) != (v < 0)) {
        push_char(s, '-');
    }
    let ac = abs_exec(c);
    let av = abs_exec(v);
    assert(ac * 100 < 0x1_0000_0000_0000_0000_0000_0000) by (nonlinear_arith)
        requires
            ac <= 0x8000_0000_0000_0000,
    ;
    let n = round_half_even_exec(ac * 100, av);
    push_two_places(s, n);
    assert(s@ =~= before + ratio_text(c as int, v as int));
}

/// Appends a count of hundredths as `units.hh`.
pub fn push_two_places(s: &mut String, n: u128)
    ensures
        final(s)@ == old(s)@ + two_places(n as nat),
{
    let ghost before = s@;
    push_decimal(s, n / 100);
    push_char(s, '.');
    push_char(s, digit_char_exec(((n / 10) % 10) as u64));
    push_char(s, digit_char_exec((n % 10) as u64));
    assert(s@ =~= before + two_places(n as nat));
}

/// Whether `c / v <= num / den` (`v != 0`, `den > 0`), compared exactly.
pub open spec fn ratio_at_most(c: int, v: int, num: int, den: int) -> bool {
    if v > 0 {
        c * den <= num * v
    } else {
        c * den >= num * v
    }
}

pub fn ratio_at_most_exec(c: i64, v: i64, num: i64, den: i64) -> (b: bool)
    requires
        v != 0,
        0 < den <= 100,
        0 <= num <= 100,
    ensures
        b == ratio_at_most(c as int, v as int, num as int, den as int),
{
    let ci = c as i128;
    let vi = v as i128;
    let di = den as i128;
    let ni = num as i128;
    assert(-0x1_0000_0000_0000_0000_0000 < ci * di < 0x1_0000_0000_0000_0000_0000) by (nonlinear_arith)
        requires
            -0x8000_0000_0000_0000 <= ci < 0x8000_0000_0000_0000,
            0 < di <= 100,
    ;
    assert(-0x1_0000_0000_0000_0000_0000 < ni * vi < 0x1_0000_0000_0000_0000_0000) by (nonlinear_arith)
        requires
            -0x8000_0000_0000_0000 <= vi < 0x8000_0000_0000_0000,
            0 <= ni <= 100,
    ;
    let lhs = ci * di;
    let rhs = ni * vi;
    if v > 0 {
        lhs <= rhs
    } else {
        lhs >= rhs
    }
}

} // verus!
