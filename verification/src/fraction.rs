//! Decimal numbers in thousandths, for opacity levels and scale factors.

use vstd::prelude::*;
use crate::text::{decimal, digit_char, digit_text, push_decimal};

verus! {

/// How many thousandths make one.
pub const MILLIS_PER_UNIT: i32 = 1000;

/// A decimal number held in thousandths: 1.25 is `Fraction { millis: 1250 }`.
#[derive(Clone, Copy, Debug, PartialEq, Eq, PartialOrd, Ord, Hash, Structural)]
pub struct Fraction {
    pub millis: i32,
}

impl View for Fraction {
    type V = int;

    open spec fn view(&self) -> int {
        self.millis as int
    }
}

/// `v`, or the end of the `i32` range that lies nearest to it.
pub open spec fn clamp_to_i32(v: int) -> int {
    if v < i32::MIN {
        i32::MIN as int
    } else if v > i32::MAX {
        i32::MAX as int
    } else {
        v
    }
}

/// The size of `v` without its sign.
pub open spec fn magnitude(v: int) -> int {
    if v < 0 {
        -v
    } else {
        v
    }
}

/// `a / b` with the fractional part dropped (rounded toward zero), for `b != 0`.
pub open spec fn truncated_quotient(a: int, b: int) -> int
    recommends
        b != 0,
{
    if b > 0 {
        if a >= 0 {
            a / b
        } else {
            -((-a) / b)
        }
    } else {
        if a >= 0 {
            -(a / (-b))
        } else {
            (-a) / (-b)
        }
    }
}

/// `x` times `factor`, fraction dropped, held to the `i32` range.
pub open spec fn scaled(x: int, factor: Fraction) -> int {
    clamp_to_i32(truncated_quotient(x * factor@, 1000))
}

/// `x` divided by `factor`, fraction dropped, held to the `i32` range. Division
/// by zero gives the end of the range on the side of `x`, and zero for zero.
pub open spec fn unscaled(x: int, factor: Fraction) -> int {
    if factor@ == 0 {
        if x > 0 {
            i32::MAX as int
        } else if x < 0 {
            i32::MIN as int
        } else {
            0
        }
    } else {
        clamp_to_i32(truncated_quotient(x * 1000, factor@))
    }
}

/// The digits behind the decimal point for `r` thousandths, `r` from 1 to
/// 999, without zeros at the end.
pub open spec fn fraction_digits(r: nat) -> Seq<char> {
    if r % 100 == 0 {
        seq![digit_char(r / 100)]
    } else if r % 10 == 0 {
        seq![digit_char(r / 100), digit_char((r / 10) % 10)]
    } else {
        seq![digit_char(r / 100), digit_char((r / 10) % 10), digit_char(r % 10)]
    }
}

/// The number in decimal notation: `-0.5`, `0.3`, `1.25`, `2`.
pub open spec fn fraction_text(f: Fraction) -> Seq<char> {
    let size = magnitude(f@) as nat;
    let sign = if f@ < 0 {
        seq!['-']
    } else {
        Seq::empty()
    };
    if size % 1000 == 0 {
        sign + decimal(size / 1000)
    } else {
        sign + decimal(size / 1000) + seq!['.'] + fraction_digits(size % 1000)
    }
}

/// `(negative, size)` as a signed number, held to the `i32` range.
fn signed_clamped(negative: bool, size: u64) -> (v: i32)
    ensures
        v == clamp_to_i32(
            if negative {
                -(size as int)
            } else {
                size as int
            },
        ),
{
    if negative {
        if size >= 2_147_483_648 {
            i32::MIN
        } else {
            let s: i64 = size as i64;
            (-s) as i32
        }
    } else {
        if size > 2_147_483_647 {
            i32::MAX
        } else {
            size as i32
        }
    }
}

/// The size of `v` without its sign.
fn size_of(v: i64) -> (m: u64)
    requires
        v > i64::MIN,
    ensures
        m == magnitude(v as int),
{
    if v < 0 {
        (-v) as u64
    } else {
        v as u64
    }
}

impl Fraction {
    pub fn from_millis(millis: i32) -> (f: Fraction)
        ensures
            f@ == millis,
    {
        Fraction { millis }
    }

    pub fn zero() -> (f: Fraction)
        ensures
            f@ == 0,
    {
        Fraction { millis: 0 }
    }

    pub fn one() -> (f: Fraction)
        ensures
            f@ == 1000,
    {
        Fraction { millis: MILLIS_PER_UNIT }
    }

    pub fn millis(&self) -> (m: i32)
        ensures
            m == self@,
    {
        self.millis
    }

    /// Whether the number lies between zero and one, both included.
    pub open spec fn is_unit(self) -> bool {
        0 <= self@ <= 1000
    }

    /// Whether the number lies between zero and one, both included.
    pub fn in_unit_range(&self) -> (b: bool)
        ensures
            b == self.is_unit(),
    {
        0 <= self.millis && self.millis <= MILLIS_PER_UNIT
    }

    /// The number in decimal notation, with as many digits behind the point
    /// as it needs: `-0.5`, `0.3`, `1.25`, `2`.
    pub fn to_string(&self) -> (text: String)
        ensures
            text@ == fraction_text(*self),
    {
        let mut text = String::new();
        self.write_to(&mut text);
        text
    }

    /// Writes the number in decimal notation behind `text`.
    pub fn write_to(&self, text: &mut String)
        ensures
            final(text)@ == old(text)@ + fraction_text(*self),
    {
        let size: u64 = size_of(self.millis as i64);
        proof {
            reveal_strlit("-");
            reveal_strlit(".");
        }
        if self.millis < 0 {
            text.append("-");
        }
        push_decimal(text, (size / 1000) as u128);
        let r: u64 = size % 1000;
        if r != 0 {
            text.append(".");
            text.append(digit_text((r / 100) as u8));
            if r % 100 != 0 {
                text.append(digit_text(((r / 10) % 10) as u8));
                if r % 10 != 0 {
                    text.append(digit_text((r % 10) as u8));
                }
            }
        }
        assert(text@ =~= old(text)@ + fraction_text(*self));
    }

    /// `x` times this number, fraction dropped, held to the `i32` range.
    pub fn scale(&self, x: i32) -> (y: i32)
        ensures
            y == scaled(x as int, *self),
    {
        let wide_x: i64 = x as i64;
        let wide_f: i64 = self.millis as i64;
        assert(-0x4000_0000_0000_0000 <= wide_x * wide_f <= 0x4000_0000_0000_0000) by (nonlinear_arith)
            requires
                -0x8000_0000 <= wide_x <= 0x7fff_ffff,
                -0x8000_0000 <= wide_f <= 0x7fff_ffff,
        ;
        let product: i64 = wide_x * wide_f;
        let size: u64 = size_of(product) / 1000;
        signed_clamped(product < 0, size)
    }

    /// `x` divided by this number, fraction dropped, held to the `i32` range.
    /// Division by zero gives the end of the range on the side of `x`, and
    /// zero for zero.
    pub fn unscale(&self, x: i32) -> (y: i32)
        ensures
            y == unscaled(x as int, *self),
    {
        if self.millis == 0 {
            if x > 0 {
                i32::MAX
            } else if x < 0 {
                i32::MIN
            } else {
                0
            }
        } else {
            let wide_x: i64 = x as i64;
            let numerator: i64 = wide_x * 1000;
            let size: u64 = size_of(numerator) / size_of(self.millis as i64);
            signed_clamped((numerator < 0) != (self.millis < 0), size)
        }
    }
}

/// Scaling a size up and back down loses less than two: the result is the
/// size itself or the size less one.
proof fn lemma_round_trip_of_size(n: int, s: int)
    requires
        n >= 0,
        s >= 1000,
    ensures
        n - 1 <= ((n * s) / 1000 * 1000) / s <= n,
{
    let a = n * s;
    let p = a / 1000;
    let b = p * 1000;
    let l = b / s;
    assert(a >= 0) by (nonlinear_arith)
        requires
            a == n * s,
            n >= 0,
            s >= 1000,
    ;
    assert(a - 1000 < b <= a) by (nonlinear_arith)
        requires
            b == (a / 1000) * 1000,
            a >= 0,
    ;
    assert(b - s < l * s <= b) by (nonlinear_arith)
        requires
            l == b / s,
            b >= 0,
            s >= 1000,
    ;
    assert(l <= n) by (nonlinear_arith)
        requires
            l * s <= n * s,
            s >= 1000,
    ;
    assert(l > n - 2) by (nonlinear_arith)
        requires
            l * s > n * s - 1000 - s,
            s >= 1000,
    ;
}

/// At a factor of exactly one, scaling changes nothing, in either direction.
pub proof fn law_unit_factor_changes_nothing(x: i32, factor: Fraction)
    requires
        factor@ == 1000,
    ensures
        scaled(x as int, factor) == x,
        unscaled(x as int, factor) == x,
        unscaled(scaled(x as int, factor), factor) == x,
{
    let n = magnitude(x as int);
    assert((n * 1000) / 1000 == n) by (nonlinear_arith)
        requires
            n >= 0,
    ;
    assert(magnitude(x * 1000) == n * 1000) by (nonlinear_arith)
        requires
            n == magnitude(x as int),
    ;
}

/// At a factor of one or more, scaling a coordinate and scaling the result
/// back gives the coordinate or its neighbour toward zero, as long as the
/// scaled coordinate fits the `i32` range.
pub proof fn law_round_trip_loses_at_most_one(x: i32, factor: Fraction)
    requires
        factor@ >= 1000,
        i32::MIN <= truncated_quotient(x * factor@, 1000) <= i32::MAX,
    ensures
        x >= 0 ==> x - 1 <= unscaled(scaled(x as int, factor), factor) <= x,
        x <= 0 ==> x <= unscaled(scaled(x as int, factor), factor) <= x + 1,
{
    let s = factor@;
    let n = magnitude(x as int);
    let p = (n * s) / 1000;
    let l = (p * 1000) / s;
    lemma_round_trip_of_size(n, s);
    assert(magnitude(x * s) == n * s && (x * s < 0 <==> x < 0)) by (nonlinear_arith)
        requires
            n == magnitude(x as int),
            s >= 1000,
    ;
    assert(p >= 0 && (p * 1000 < 0 <==> false) && magnitude(p * 1000) == p * 1000
        && magnitude(-p * 1000) == p * 1000) by (nonlinear_arith)
        requires
            p == (n * s) / 1000,
            n >= 0,
            s >= 1000,
    ;
    if x >= 0 {
        assert(truncated_quotient(x * s, 1000) == p);
        assert(scaled(x as int, factor) == p);
        assert(truncated_quotient(p * 1000, s) == l);
    } else {
        assert(truncated_quotient(x * s, 1000) == -p);
        assert(scaled(x as int, factor) == -p);
        assert(p >= 1) by (nonlinear_arith)
            requires
                p == (n * s) / 1000,
                n >= 1,
                s >= 1000,
        ;
        assert((-p) * 1000 < 0) by (nonlinear_arith)
            requires
                p >= 1,
        ;
        assert((-p) * 1000 == -(p * 1000)) by (nonlinear_arith);
        assert(truncated_quotient((-p) * 1000, s) == -l);
    }
}

} // verus!
