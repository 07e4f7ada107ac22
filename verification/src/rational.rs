//! Exact rational numbers used for all pool balances and amounts.
//!
//! A `Rat` is a signed numerator over a strictly positive denominator,
//! both `i128`. The fraction is not kept in lowest terms; equality and
//! ordering of the values they denote are stated by cross-multiplication
//! over the mathematical integers, so every contract speaks about the
//! rational number itself, never about a particular representative.

use vstd::prelude::*;

verus! {

/// Magnitude limit on the components of the rationals handed to the
/// engine. Keeping every numerator and denominator at or below this
/// bound guarantees that all intermediate products of the swap formula
/// (at most four factors plus one doubling) stay far inside `i128`.
pub const COMPONENT_BOUND: i128 = 0x4000_0000;

/// An exact rational number: numerator `n` over denominator `d`.
///
/// A well-formed value has `d > 0`; the sign of the number is the sign
/// of `n`. The view of a `Rat` is the pair of its components as
/// mathematical integers.
#[derive(Clone, Copy, Debug, PartialEq, Eq, Structural)]
pub struct Rat {
    pub n: i128,
    pub d: i128,
}

impl View for Rat {
    type V = (int, int);

    open spec fn view(&self) -> (int, int) {
        (self.n as int, self.d as int)
    }
}

impl Rat {
    /// A well-formed rational has a strictly positive denominator.
    pub open spec fn wf(&self) -> bool {
        self.d > 0
    }

    /// Both components are small enough for the swap formula to be
    /// evaluated in `i128` without overflow.
    pub open spec fn bounded(&self) -> bool {
        &&& -COMPONENT_BOUND <= self.n <= COMPONENT_BOUND
        &&& 0 < self.d <= COMPONENT_BOUND
    }

    /// Builds the rational `n / d`.
    pub fn new(n: i128, d: i128) -> (r: Rat)
        requires
            d > 0,
        ensures
            r@ == (n as int, d as int),
            r.wf(),
    {
        Rat { n, d }
    }
}

/// The two pairs denote the same rational number (denominators positive).
pub open spec fn rat_eq(a: (int, int), b: (int, int)) -> bool {
    a.0 * b.1 == b.0 * a.1
}

/// `a <= b` as rational numbers (denominators positive).
pub open spec fn rat_le(a: (int, int), b: (int, int)) -> bool {
    a.0 * b.1 <= b.0 * a.1
}

/// `a < b` as rational numbers (denominators positive).
pub open spec fn rat_lt(a: (int, int), b: (int, int)) -> bool {
    a.0 * b.1 < b.0 * a.1
}

/// The sum of two rationals, as the textbook cross-multiplied fraction.
pub open spec fn rat_add(a: (int, int), b: (int, int)) -> (int, int) {
    (a.0 * b.1 + b.0 * a.1, a.1 * b.1)
}

/// The difference of two rationals, as the textbook cross-multiplied
/// fraction.
pub open spec fn rat_sub(a: (int, int), b: (int, int)) -> (int, int) {
    (a.0 * b.1 - b.0 * a.1, a.1 * b.1)
}

/// The product of two rationals.
pub open spec fn rat_mul(a: (int, int), b: (int, int)) -> (int, int) {
    (a.0 * b.0, a.1 * b.1)
}

/// A strictly positive rational with a positive denominator.
pub open spec fn rat_pos(a: (int, int)) -> bool {
    a.0 > 0 && a.1 > 0
}

/// Bounds on two factors bound their product.
pub proof fn lemma_mul_bound(x: int, y: int, bx: int, by: int)
    by (nonlinear_arith)
    requires
        -bx <= x <= bx,
        -by <= y <= by,
        0 <= bx,
        0 <= by,
    ensures
        -(bx * by) <= x * y <= bx * by,
{
}

/// The product of two strictly positive integers is strictly positive.
pub proof fn lemma_mul_pos(x: int, y: int)
    by (nonlinear_arith)
    requires
        0 < x,
        0 < y,
    ensures
        0 < x * y,
{
}

/// Multiplying both sides of a strict inequality by a positive factor
/// keeps it strict.
pub proof fn lemma_mul_lt_left(c: int, x: int, y: int)
    by (nonlinear_arith)
    requires
        0 < c,
        x < y,
    ensures
        c * x < c * y,
{
}

/// Multiplying both sides of an inequality by a non-negative factor
/// preserves it.
pub proof fn lemma_mul_le_left(c: int, x: int, y: int)
    by (nonlinear_arith)
    requires
        0 <= c,
        x <= y,
    ensures
        c * x <= c * y,
{
}

} // verus!
