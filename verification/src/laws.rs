//! The economic laws of the constant-product formula, proved for every
//! allowed input over the exact rational model that the engine's
//! contracts are stated in.
//!
//! The output bound (a trade can never drain the bought reserve) and the
//! zero-input and error behaviour are part of the engine functions' own
//! contracts; this module proves the laws that relate several calls or
//! both sides of a trade: monotonicity of the quote in the offered
//! amount, growth of the reserve product under the fee, and erosion of a
//! round trip.

use vstd::prelude::*;

use vstd::arithmetic::mul::lemma_mul_is_associative;
use vstd::arithmetic::mul::lemma_mul_is_commutative;
use vstd::arithmetic::mul::lemma_mul_is_distributive_add;
use vstd::arithmetic::mul::lemma_mul_nonnegative;

use crate::engine::fee_ok;
use crate::engine::quote;
use crate::engine::quote_den;
use crate::engine::quote_num;
use crate::engine::settled_reserve_out;
use crate::rational::lemma_mul_lt_left;
use crate::rational::lemma_mul_le_left;
use crate::rational::lemma_mul_pos;
use crate::rational::rat_add;
use crate::rational::rat_le;
use crate::rational::rat_lt;
use crate::rational::rat_mul;
use crate::rational::rat_pos;

verus! {

// The proofs below compare products of many factors. Each comparison is
// reduced to one short inequality between two factors, scaled back up by
// a positive common factor; the remaining obligations are pure
// regroupings of products, each discharged by one of the small shape
// lemmas here, whose bodies hand the whole query to the multiplication
// axioms at once.

#[verifier::rlimit(100)]
proof fn lemma_cross_expand(x: int, ri0: int, y: int, g: int, zz: int, c: int, ri1: int)
    ensures
        x * (ri0 * y * g + zz * c * ri1) == ri0 * g * (x * y) + x * zz * c * ri1,
{
    broadcast use vstd::arithmetic::mul::group_mul_properties;

}

#[verifier::rlimit(100)]
proof fn lemma_quote_cross_shape(ro0: int, a: int, c: int, ri1: int, ro1: int, dd: int)
    ensures
        ro0 * a * c * ri1 * (ro1 * dd) == ro0 * c * ri1 * ro1 * (a * dd),
{
    broadcast use vstd::arithmetic::mul::group_mul_properties;

}

#[verifier::rlimit(100)]
proof fn lemma_prod_shape_pre(ri0: int, ro0: int, ri1: int, av: int, ro1: int, dd: int)
    ensures
        (ri0 * ro0) * ((ri1 * av) * (ro1 * dd)) == ri0 * ro0 * ri1 * ro1 * av * dd,
{
    broadcast use vstd::arithmetic::mul::group_mul_properties;

}

#[verifier::rlimit(100)]
proof fn lemma_prod_shape_post(s: int, ro0: int, ri0: int, av: int, g: int, ri1: int, ro1: int)
    ensures
        (s * (ro0 * ri0 * av * g)) * (ri1 * ro1) == ri0 * ro0 * ri1 * ro1 * av * (g * s),
{
    broadcast use vstd::arithmetic::mul::group_mul_properties;

}

#[verifier::rlimit(100)]
proof fn lemma_trip_shape_out(sum: int, r0: int, u0: int, c: int, q1: int, s1: int, dd: int, v1: int)
    ensures
        sum * (r0 * u0 * c * q1) * c * (s1 * dd) * v1 == r0 * s1 * dd * u0 * q1 * v1 * (c * c
            * sum),
{
    broadcast use vstd::arithmetic::mul::group_mul_properties;

}

#[verifier::rlimit(100)]
proof fn lemma_trip_shape_keep(u0: int, q1: int, v1: int, r0: int, p0: int, g: int, s1: int, dd: int)
    ensures
        u0 * ((q1 * v1) * (r0 * p0 * v1 * g * (s1 * dd) * g)) == r0 * s1 * dd * u0 * q1 * v1 * ((p0
            * v1) * (g * g)),
{
    broadcast use vstd::arithmetic::mul::group_mul_properties;

}

#[verifier::rlimit(100)]
proof fn lemma_trip_shape_back(u0: int, q1: int, v1: int, r0: int, c: int, s1: int, dd: int)
    ensures
        u0 * ((q1 * v1) * (r0 * u0 * c * q1 * c * (s1 * dd))) == r0 * s1 * dd * u0 * q1 * v1 * ((u0
            * q1) * (c * c)),
{
    broadcast use vstd::arithmetic::mul::group_mul_properties;

}

/// Monotonicity: with the reserves and the fee rate fixed, offering
/// strictly more of the sold token always buys strictly more of the
/// bought token.
pub proof fn lemma_quote_monotone(
    rin: (int, int),
    rout: (int, int),
    amt1: (int, int),
    amt2: (int, int),
    fee: (int, int),
)
    requires
        rat_pos(rin),
        rat_pos(rout),
        amt1.0 >= 0,
        amt1.1 > 0,
        amt2.0 >= 0,
        amt2.1 > 0,
        fee_ok(fee),
        rat_lt(amt1, amt2),
    ensures
        rat_lt(quote(rin, rout, amt1, fee), quote(rin, rout, amt2, fee)),
{
    let c = fee.1 - fee.0;
    let d1 = rin.0 * amt1.1 * fee.1 + amt1.0 * c * rin.1;
    let d2 = rin.0 * amt2.1 * fee.1 + amt2.0 * c * rin.1;
    // the comparison of the amounts transfers to the cross terms
    lemma_cross_expand(amt1.0, rin.0, amt2.1, fee.1, amt2.0, c, rin.1);
    lemma_cross_expand(amt2.0, rin.0, amt1.1, fee.1, amt1.0, c, rin.1);
    lemma_mul_is_commutative(amt1.0, amt2.0);
    lemma_mul_pos(rin.0, fee.1);
    lemma_mul_lt_left(rin.0 * fee.1, amt1.0 * amt2.1, amt2.0 * amt1.1);
    assert(amt1.0 * d2 < amt2.0 * d1);
    // scale by the positive factor shared by both cross products
    let k = rout.0 * c * rin.1 * rout.1;
    lemma_mul_pos(rout.0, c);
    lemma_mul_pos(rout.0 * c, rin.1);
    lemma_mul_pos(rout.0 * c * rin.1, rout.1);
    lemma_mul_lt_left(k, amt1.0 * d2, amt2.0 * d1);
    lemma_quote_cross_shape(rout.0, amt1.0, c, rin.1, rout.1, d2);
    lemma_quote_cross_shape(rout.0, amt2.0, c, rin.1, rout.1, d1);
    assert(quote_num(rin, rout, amt1, fee) * quote_den(rin, rout, amt2, fee) == k * (amt1.0 * d2));
    assert(quote_num(rin, rout, amt2, fee) * quote_den(rin, rout, amt1, fee) == k * (amt2.0 * d1));
}

/// Fee effect: after a trade, with the sold side carrying the full
/// nominal input and the bought side reduced by the quoted output, the
/// product of the reserves never shrinks, and strictly grows whenever a
/// strictly positive amount meets a strictly positive fee.
pub proof fn lemma_fee_grows_product(
    rin: (int, int),
    rout: (int, int),
    amt: (int, int),
    fee: (int, int),
)
    requires
        rat_pos(rin),
        rat_pos(rout),
        amt.0 >= 0,
        amt.1 > 0,
        fee_ok(fee),
    ensures
        rat_le(
            rat_mul(rin, rout),
            rat_mul(rat_add(rin, amt), settled_reserve_out(rin, rout, amt, fee)),
        ),
        amt.0 > 0 && fee.0 > 0 ==> rat_lt(
            rat_mul(rin, rout),
            rat_mul(rat_add(rin, amt), settled_reserve_out(rin, rout, amt, fee)),
        ),
{
    let c = fee.1 - fee.0;
    let g = fee.1;
    let inner = rin.0 * amt.1 * g + amt.0 * c * rin.1;
    let s = rin.0 * amt.1 + amt.0 * rin.1;
    // the effective update is dominated by the nominal one, by exactly
    // the retained fee
    lemma_mul_is_distributive_add(g, rin.0 * amt.1, amt.0 * rin.1);
    lemma_mul_is_commutative(rin.0 * amt.1, g);
    lemma_mul_is_associative(amt.0, c, rin.1);
    lemma_mul_is_commutative(c, rin.1);
    lemma_mul_is_associative(amt.0, rin.1, c);
    lemma_mul_nonnegative(amt.0, rin.1);
    lemma_mul_le_left(amt.0 * rin.1, c, g);
    lemma_mul_is_commutative(amt.0 * rin.1, g);
    assert(inner <= g * s);
    // scale by the positive factor shared by both cross products
    let m = rin.0 * rout.0 * rin.1 * rout.1 * amt.1;
    lemma_mul_pos(rin.0, rout.0);
    lemma_mul_pos(rin.0 * rout.0, rin.1);
    lemma_mul_pos(rin.0 * rout.0 * rin.1, rout.1);
    lemma_mul_pos(rin.0 * rout.0 * rin.1 * rout.1, amt.1);
    lemma_mul_le_left(m, inner, g * s);
    if amt.0 > 0 && fee.0 > 0 {
        lemma_mul_pos(amt.0, rin.1);
        lemma_mul_lt_left(amt.0 * rin.1, c, g);
        assert(inner < g * s);
        lemma_mul_lt_left(m, inner, g * s);
    }
    lemma_prod_shape_pre(rin.0, rout.0, rin.1, amt.1, rout.1, inner);
    lemma_prod_shape_post(s, rout.0, rin.0, amt.1, g, rin.1, rout.1);
    assert(rat_mul(rin, rout).0 * rat_mul(
        rat_add(rin, amt),
        settled_reserve_out(rin, rout, amt, fee),
    ).1 == m * inner);
    assert(rat_mul(rat_add(rin, amt), settled_reserve_out(rin, rout, amt, fee)).0 * rat_mul(
        rin,
        rout,
    ).1 == m * (g * s));
}

/// Round trip: selling a strictly positive amount of one token and at
/// once selling the entire proceeds back again returns strictly less
/// than the original amount whenever the fee is strictly positive.
pub proof fn lemma_round_trip(ra: (int, int), rb: (int, int), amt: (int, int), fee: (int, int))
    requires
        rat_pos(ra),
        rat_pos(rb),
        amt.0 > 0,
        amt.1 > 0,
        fee_ok(fee),
        fee.0 > 0,
    ensures
        rat_lt(
            quote(
                settled_reserve_out(ra, rb, amt, fee),
                rat_add(ra, amt),
                quote(ra, rb, amt, fee),
                fee,
            ),
            amt,
        ),
{
    let c = fee.1 - fee.0;
    let g = fee.1;
    let d1 = ra.0 * amt.1 * g + amt.0 * c * ra.1;
    let w = ra.0 * amt.1;
    let z = amt.0 * ra.1;
    let out1 = quote(ra, rb, amt, fee);
    let ra2 = rat_add(ra, amt);
    let rb2 = settled_reserve_out(ra, rb, amt, fee);
    let back = quote(rb2, ra2, out1, fee);
    lemma_mul_pos(ra.0, amt.1);
    lemma_mul_pos(amt.0, ra.1);
    lemma_mul_pos(ra.0 * amt.1, g);
    lemma_mul_pos(amt.0, c);
    lemma_mul_pos(amt.0 * c, ra.1);
    let m = rb.0 * rb.1 * d1 * amt.0 * ra.1 * amt.1;
    lemma_mul_pos(rb.0, rb.1);
    lemma_mul_pos(rb.0 * rb.1, d1);
    lemma_mul_pos(rb.0 * rb.1 * d1, amt.0);
    lemma_mul_pos(rb.0 * rb.1 * d1 * amt.0, ra.1);
    lemma_mul_pos(rb.0 * rb.1 * d1 * amt.0 * ra.1, amt.1);
    // the kernel of the law: the squared fee factor loses against the
    // fee-free square
    lemma_mul_lt_left(c, c, g);
    lemma_mul_lt_left(g, c, g);
    lemma_mul_is_commutative(c, g);
    assert(c * c < g * g);
    lemma_mul_is_distributive_add(c * c, w, z);
    lemma_mul_is_commutative(c * c, w);
    lemma_mul_is_commutative(c * c, z);
    lemma_mul_lt_left(w, c * c, g * g);
    assert(c * c * (w + z) < w * (g * g) + z * (c * c));
    lemma_mul_lt_left(m, c * c * (w + z), w * (g * g) + z * (c * c));
    lemma_mul_is_distributive_add(m, w * (g * g), z * (c * c));
    // regroup the two cross products of the goal onto the kernel
    lemma_trip_shape_out(w + z, rb.0, amt.0, c, ra.1, rb.1, d1, amt.1);
    assert(back.0 * amt.1 == m * (c * c * (w + z)));
    let t1 = rb2.0 * out1.1 * g;
    let t2 = out1.0 * c * rb2.1;
    lemma_mul_is_distributive_add(ra.1 * amt.1, t1, t2);
    assert(back.1 == (ra.1 * amt.1) * t1 + (ra.1 * amt.1) * t2);
    lemma_mul_is_distributive_add(amt.0, (ra.1 * amt.1) * t1, (ra.1 * amt.1) * t2);
    lemma_trip_shape_keep(amt.0, ra.1, amt.1, rb.0, ra.0, g, rb.1, d1);
    lemma_trip_shape_back(amt.0, ra.1, amt.1, rb.0, c, rb.1, d1);
    assert(amt.0 * back.1 == m * (w * (g * g) + z * (c * c)));
    assert(back.0 * amt.1 < amt.0 * back.1);
}

} // verus!
