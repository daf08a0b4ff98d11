//! Exact rational numbers.
//!
//! Every physical quantity in this library (pressure, temperature, energy,
//! the derived property values) is an exact rational: a pair of an `i128`
//! numerator and a positive `i128` denominator. All unit conversions in this
//! program are affine maps with rational coefficients, so keeping quantities
//! as rationals makes every conversion exact and makes the round-trip laws
//! provable as equalities rather than approximations.

use vstd::prelude::*;

verus! {

/// Mathematical model of a rational number: an unbounded numerator and
/// denominator. Used only in specifications.
pub struct Rat {
    pub n: int,
    pub d: int,
}

/// A well-formed rational has a positive denominator.
pub open spec fn rat_wf(a: Rat) -> bool {
    a.d > 0
}

/// Value equality of two rationals, by cross-multiplication.
pub open spec fn rat_eq(a: Rat, b: Rat) -> bool {
    a.n * b.d == b.n * a.d
}

pub open spec fn rat_mul(a: Rat, b: Rat) -> Rat {
    Rat { n: a.n * b.n, d: a.d * b.d }
}

/// Quotient a / b. Well-formed only when `b.n > 0`; callers that divide by a
/// possibly negative quantity must normalize the sign of the result.
pub open spec fn rat_div(a: Rat, b: Rat) -> Rat {
    Rat { n: a.n * b.d, d: a.d * b.n }
}

pub open spec fn rat_add(a: Rat, b: Rat) -> Rat {
    Rat { n: a.n * b.d + b.n * a.d, d: a.d * b.d }
}

pub open spec fn rat_sub(a: Rat, b: Rat) -> Rat {
    Rat { n: a.n * b.d - b.n * a.d, d: a.d * b.d }
}

/// Numerator and denominator bounded in magnitude by `b` (and denominator
/// positive). The executable code tracks such bounds to rule out `i128`
/// overflow.
pub open spec fn rat_bounded(a: Rat, b: int) -> bool {
    -b <= a.n <= b && 0 < a.d <= b
}

/// An executable exact rational quantity.
#[derive(Clone, Copy, PartialEq, Eq, Structural, Debug)]
pub struct Qty {
    pub num: i128,
    pub den: i128,
}

impl View for Qty {
    type V = Rat;

    open spec fn view(&self) -> Rat {
        Rat { n: self.num as int, d: self.den as int }
    }
}

impl Qty {
    pub open spec fn wf(self) -> bool {
        self.den > 0
    }
}

/// Value equality test of two bounded quantities.
pub fn qty_eq(a: Qty, b: Qty) -> (r: bool)
    requires
        rat_bounded(a@, 1_000_000_000_000_000_000),
        rat_bounded(b@, 1_000_000_000_000_000_000),
    ensures
        r == rat_eq(a@, b@),
{
    proof {
        lemma_mul_bound(a.num as int, b.den as int, 1_000_000_000_000_000_000);
        lemma_mul_bound(b.num as int, a.den as int, 1_000_000_000_000_000_000);
    }
    a.num * b.den == b.num * a.den
}

/// Difference `a - b` of two bounded quantities, exact.
pub fn qty_sub(a: Qty, b: Qty) -> (r: Qty)
    requires
        rat_bounded(a@, 1_000_000_000_000_000),
        rat_bounded(b@, 1_000_000_000_000_000),
    ensures
        r@ == rat_sub(a@, b@),
        r.wf(),
        rat_bounded(r@, 2_000_000_000_000_000_000_000_000_000_000),
{
    proof {
        lemma_mul_bound(a.num as int, b.den as int, 1_000_000_000_000_000);
        lemma_mul_bound(b.num as int, a.den as int, 1_000_000_000_000_000);
        lemma_mul_bound(a.den as int, b.den as int, 1_000_000_000_000_000);
        assert(a.den * b.den > 0) by (nonlinear_arith)
            requires
                a.den > 0,
                b.den > 0,
        {
        }
    }
    Qty { num: a.num * b.den - b.num * a.den, den: a.den * b.den }
}

/// Quotient `a / b` of two bounded quantities with `b != 0`, exact, with the
/// sign normalized into the numerator.
pub fn qty_div(a: Qty, b: Qty) -> (r: Qty)
    requires
        rat_bounded(a@, 1_000_000_000_000_000),
        rat_bounded(b@, 1_000_000_000_000_000),
        b@.n != 0,
    ensures
        rat_eq(r@, rat_div(a@, b@)),
        r.wf(),
        rat_bounded(r@, 1_000_000_000_000_000_000_000_000_000_000),
{
    proof {
        lemma_mul_bound(a.num as int, b.den as int, 1_000_000_000_000_000);
        lemma_mul_bound(a.den as int, b.num as int, 1_000_000_000_000_000);
    }
    if b.num > 0 {
        proof {
            assert(a.den * b.num > 0) by (nonlinear_arith)
                requires
                    a.den > 0,
                    b.num > 0,
            {
            }
        }
        let r = Qty { num: a.num * b.den, den: a.den * b.num };
        proof {
            assert(r@ == rat_div(a@, b@));
        }
        r
    } else {
        proof {
            lemma_mul_bound(a.den as int, -(b.num as int), 1_000_000_000_000_000);
            assert(a.den * (-b.num) > 0) by (nonlinear_arith)
                requires
                    a.den > 0,
                    b.num < 0,
            {
            }
        }
        let r = Qty { num: -(a.num * b.den), den: a.den * (-b.num) };
        proof {
            assert(a@.d * (-b@.n) == -(a@.d * b@.n)) by (nonlinear_arith);
            assert(r@.n == -(a@.n * b@.d) && r@.d == -(a@.d * b@.n));
            assert((-(a@.n * b@.d)) * (a@.d * b@.n) == (a@.n * b@.d) * (-(a@.d * b@.n)))
                by (nonlinear_arith);
        }
        r
    }
}

/// |x| <= bx and |y| <= by gives |x * y| <= bx * by.
pub proof fn lemma_mul_bound2(x: int, y: int, bx: int, by: int)
    requires
        -bx <= x <= bx,
        -by <= y <= by,
        0 <= bx,
        0 <= by,
    ensures
        -(bx * by) <= x * y <= bx * by,
{
    assert(-(bx * by) <= x * y <= bx * by) by (nonlinear_arith)
        requires
            -bx <= x <= bx,
            -by <= y <= by,
            0 <= bx,
            0 <= by,
    {
    }
}

/// |x| <= b and |y| <= b with y's sign free gives |x * y| <= b * b.
pub proof fn lemma_mul_bound(x: int, y: int, b: int)
    requires
        -b <= x <= b,
        -b <= y <= b,
        0 <= b,
    ensures
        -(b * b) <= x * y <= b * b,
{
    assert(-(b * b) <= x * y <= b * b) by (nonlinear_arith)
        requires
            -b <= x <= b,
            -b <= y <= b,
            0 <= b,
    {
    }
}

} // verus!
