//! The swap engine: quoting a trade against a constant-product pool.
//!
//! `quote_swap` computes the output amount for a sale of `amount_in`
//! against the pair of reserves, after the proportional fee, as the
//! exact rational
//!
//! `amountOut = reserveOut - reserveIn * reserveOut / (reserveIn + amountIn * (1 - feeRate))`
//!
//! which reduces to the single fraction
//!
//! `amountOut = reserveOut * amountIn * (1 - feeRate) / (reserveIn + amountIn * (1 - feeRate))`.
//!
//! The spec functions below state that fraction numerator/denominator
//! over the mathematical integers; the executable code returns exactly
//! that representative.

use vstd::prelude::*;

use vstd::arithmetic::mul::lemma_mul_is_associative;
use vstd::arithmetic::mul::lemma_mul_is_commutative;
use vstd::arithmetic::mul::lemma_mul_is_distributive_add;

use crate::rational::COMPONENT_BOUND;
use crate::rational::Rat;
use crate::rational::lemma_mul_bound;
use crate::rational::lemma_mul_pos;
use crate::rational::rat_add;
use crate::rational::rat_eq;
use crate::rational::rat_lt;
use crate::rational::rat_sub;

verus! {

/// Why a swap request was refused. All failures are reported as values;
/// the engine never panics on caller input.
#[derive(Clone, Copy, Debug, PartialEq, Eq, Structural)]
pub enum SwapError {
    /// The offered amount is negative.
    InvalidAmount,
    /// The offered token matches neither side of the pool.
    UnknownToken,
    /// At least one reserve is zero or negative, so the trade is undefined.
    NoLiquidity,
}

/// A fee rate is a fraction in `[0, 1)`.
pub open spec fn fee_ok(fee: (int, int)) -> bool {
    0 <= fee.0 < fee.1
}

/// Numerator of the quoted output amount: the constant-product formula
/// `reserveOut * effectiveIn / (reserveIn + effectiveIn)` with
/// `effectiveIn = amountIn * (feeDen - feeNum) / feeDen`, written as one
/// fraction whose numerator this is.
pub open spec fn quote_num(rin: (int, int), rout: (int, int), amt: (int, int), fee: (int, int)) -> int {
    rout.0 * amt.0 * (fee.1 - fee.0) * rin.1
}

/// Denominator of the quoted output amount; see `quote_num`.
pub open spec fn quote_den(rin: (int, int), rout: (int, int), amt: (int, int), fee: (int, int)) -> int {
    rout.1 * (rin.0 * amt.1 * fee.1 + amt.0 * (fee.1 - fee.0) * rin.1)
}

/// The quoted output amount as one exact fraction.
pub open spec fn quote(rin: (int, int), rout: (int, int), amt: (int, int), fee: (int, int)) -> (int, int) {
    (quote_num(rin, rout, amt, fee), quote_den(rin, rout, amt, fee))
}

/// The bought side's reserve after the trade, `reserveOut - amountOut`,
/// written over the same denominator as the quote itself.
pub open spec fn settled_reserve_out(rin: (int, int), rout: (int, int), amt: (int, int), fee: (int, int)) -> (int, int) {
    (rout.0 * rin.0 * amt.1 * fee.1, quote_den(rin, rout, amt, fee))
}

/// The validation verdict on a quote: which error a request earns, or
/// `None` when the swap is computable. Liquidity is checked before the
/// amount's sign.
pub open spec fn quote_error(rin: (int, int), rout: (int, int), amt: (int, int)) -> Option<SwapError> {
    if rin.0 <= 0 || rout.0 <= 0 {
        Some(SwapError::NoLiquidity)
    } else if amt.0 < 0 {
        Some(SwapError::InvalidAmount)
    } else {
        None
    }
}

/// Quotes a swap: how much of the bought token a sale of `amount_in`
/// releases, under the constant-product rule with the given fee.
///
/// Succeeds exactly when both reserves are strictly positive and the
/// amount is non-negative; the output then equals the formula's value
/// exactly, is non-negative, and is strictly below the bought reserve,
/// so one trade can never drain the pool.
pub fn quote_swap(reserve_in: &Rat, reserve_out: &Rat, amount_in: &Rat, fee_rate: &Rat) -> (r: Result<
    Rat,
    SwapError,
>)
    requires
        reserve_in.bounded(),
        reserve_out.bounded(),
        amount_in.bounded(),
        fee_rate.bounded(),
        fee_ok(fee_rate@),
    ensures
        r is Ok <==> quote_error(reserve_in@, reserve_out@, amount_in@) is None,
        r matches Err(e) ==> quote_error(reserve_in@, reserve_out@, amount_in@) == Some(e),
        r matches Ok(out) ==> {
            &&& out@ == quote(reserve_in@, reserve_out@, amount_in@, fee_rate@)
            &&& out.wf()
            &&& out.n >= 0
            &&& rat_lt(out@, reserve_out@)
            &&& (amount_in.n == 0 ==> out.n == 0)
        },
{
    if reserve_in.n <= 0 || reserve_out.n <= 0 {
        return Err(SwapError::NoLiquidity);
    }
    if amount_in.n < 0 {
        return Err(SwapError::InvalidAmount);
    }
    let c: i128 = fee_rate.d - fee_rate.n;
    proof {
        let b: int = COMPONENT_BOUND as int;
        lemma_mul_bound(reserve_out.n as int, amount_in.n as int, b, b);
        lemma_mul_bound(reserve_out.n as int * amount_in.n as int, c as int, b * b, b);
        lemma_mul_bound(
            reserve_out.n as int * amount_in.n as int * c as int,
            reserve_in.d as int,
            b * b * b,
            b,
        );
        lemma_mul_bound(reserve_in.n as int, amount_in.d as int, b, b);
        lemma_mul_bound(reserve_in.n as int * amount_in.d as int, fee_rate.d as int, b * b, b);
        lemma_mul_bound(amount_in.n as int, c as int, b, b);
        lemma_mul_bound(amount_in.n as int * c as int, reserve_in.d as int, b * b, b);
        lemma_mul_bound(
            reserve_out.d as int,
            reserve_in.n as int * amount_in.d as int * fee_rate.d as int + amount_in.n as int
                * c as int * reserve_in.d as int,
            b,
            2 * (b * b * b),
        );
    }
    let num: i128 = reserve_out.n * amount_in.n * c * reserve_in.d;
    let inner: i128 = reserve_in.n * amount_in.d * fee_rate.d + amount_in.n * c * reserve_in.d;
    let den: i128 = reserve_out.d * inner;
    proof {
        lemma_mul_pos(reserve_in.n as int, amount_in.d as int);
        lemma_mul_pos(reserve_in.n as int * amount_in.d as int, fee_rate.d as int);
        assert(amount_in.n as int * c as int * reserve_in.d as int >= 0) by (nonlinear_arith)
            requires
                amount_in.n >= 0,
                c > 0,
                reserve_in.d > 0,
        ;
        lemma_mul_pos(reserve_out.d as int, inner as int);
        assert(num >= 0) by (nonlinear_arith)
            requires
                num as int == reserve_out.n as int * amount_in.n as int * c as int
                    * reserve_in.d as int,
                reserve_out.n > 0,
                amount_in.n >= 0,
                c > 0,
                reserve_in.d > 0,
        ;
        assert(amount_in.n == 0 ==> num == 0) by (nonlinear_arith)
            requires
                num as int == reserve_out.n as int * amount_in.n as int * c as int
                    * reserve_in.d as int,
        ;
        assert((num as int) * (reserve_out.d as int) < (reserve_out.n as int) * (den as int))
            by (nonlinear_arith)
            requires
                num as int == reserve_out.n as int * amount_in.n as int * c as int
                    * reserve_in.d as int,
                den as int == reserve_out.d as int * (reserve_in.n as int * amount_in.d as int
                    * fee_rate.d as int + amount_in.n as int * c as int * reserve_in.d as int),
                reserve_out.n > 0,
                reserve_out.d > 0,
                reserve_in.n > 0,
                reserve_in.d > 0,
                amount_in.n >= 0,
                amount_in.d > 0,
                c > 0,
                fee_rate.d > 0,
        ;
    }
    Ok(Rat { n: num, d: den })
}

/// What a successfully applied swap leaves behind: the output amount is
/// the exact quote, the sold side gains the full nominal input, the
/// bought side loses exactly the output, the output never drains the
/// bought reserve, and a zero input changes nothing.
pub open spec fn swap_applied(
    rin: Rat,
    rout: Rat,
    amt: Rat,
    fee: Rat,
    out: Rat,
    new_rin: Rat,
    new_rout: Rat,
) -> bool {
    &&& out@ == quote(rin@, rout@, amt@, fee@)
    &&& new_rin@ == rat_add(rin@, amt@)
    &&& new_rout@ == settled_reserve_out(rin@, rout@, amt@, fee@)
    &&& rat_eq(new_rout@, rat_sub(rout@, out@))
    &&& out.n >= 0
    &&& rat_lt(out@, rout@)
    &&& out.wf()
    &&& new_rin.wf()
    &&& new_rout.wf()
    &&& (amt.n == 0 ==> out.n == 0 && rat_eq(new_rin@, rin@) && rat_eq(new_rout@, rout@))
}

/// Quotes a swap and settles both reserves: the sold side's balance
/// grows by the full nominal input (the fee stays inside the pool), the
/// bought side's balance shrinks by the output amount.
#[verifier::rlimit(60)]
fn settle(reserve_in: &Rat, reserve_out: &Rat, amount_in: &Rat, fee_rate: &Rat) -> (r: Result<
    (Rat, Rat, Rat),
    SwapError,
>)
    requires
        reserve_in.bounded(),
        reserve_out.bounded(),
        amount_in.bounded(),
        fee_rate.bounded(),
        fee_ok(fee_rate@),
    ensures
        r is Ok <==> quote_error(reserve_in@, reserve_out@, amount_in@) is None,
        r matches Err(e) ==> quote_error(reserve_in@, reserve_out@, amount_in@) == Some(e),
        r matches Ok(t) ==> swap_applied(
            *reserve_in,
            *reserve_out,
            *amount_in,
            *fee_rate,
            t.0,
            t.1,
            t.2,
        ),
{
    let out = match quote_swap(reserve_in, reserve_out, amount_in, fee_rate) {
        Ok(out) => out,
        Err(e) => {
            return Err(e);
        },
    };
    proof {
        let b: int = COMPONENT_BOUND as int;
        lemma_mul_bound(reserve_in.n as int, amount_in.d as int, b, b);
        lemma_mul_bound(amount_in.n as int, reserve_in.d as int, b, b);
        lemma_mul_bound(reserve_in.d as int, amount_in.d as int, b, b);
        lemma_mul_pos(reserve_in.d as int, amount_in.d as int);
        lemma_mul_bound(reserve_out.n as int, reserve_in.n as int, b, b);
        lemma_mul_bound(reserve_out.n as int * reserve_in.n as int, amount_in.d as int, b * b, b);
        lemma_mul_bound(
            reserve_out.n as int * reserve_in.n as int * amount_in.d as int,
            fee_rate.d as int,
            b * b * b,
            b,
        );
    }
    let new_rin = Rat { n: reserve_in.n * amount_in.d + amount_in.n * reserve_in.d, d: reserve_in.d * amount_in.d };
    let new_rout = Rat { n: reserve_out.n * reserve_in.n * amount_in.d * fee_rate.d, d: out.d };
    proof {
        let c: int = fee_rate.d as int - fee_rate.n as int;
        let rn: int = reserve_in.n as int;
        let rd: int = reserve_in.d as int;
        let ron: int = reserve_out.n as int;
        let rod: int = reserve_out.d as int;
        let an: int = amount_in.n as int;
        let ad: int = amount_in.d as int;
        let g: int = fee_rate.d as int;
        let inner: int = rn * ad * g + an * c * rd;
        let sn: int = new_rout.n as int;
        let on: int = out.n as int;
        let od: int = out.d as int;
        // the bought reserve plus the output together restore the old
        // reserve over the common denominator
        lemma_mul_is_associative(ron, rn, ad);
        lemma_mul_is_associative(ron, rn * ad, g);
        lemma_mul_is_associative(ron, an, c);
        lemma_mul_is_associative(ron, an * c, rd);
        lemma_mul_is_distributive_add(ron, rn * ad * g, an * c * rd);
        assert(sn + on == ron * inner);
        lemma_mul_is_associative(ron, rod, inner);
        lemma_mul_is_commutative(ron, rod);
        lemma_mul_is_associative(rod, ron, inner);
        lemma_mul_is_distributive_add(rod, sn, on);
        lemma_mul_is_commutative(rod, sn);
        lemma_mul_is_commutative(rod, on);
        assert(sn * rod == ron * od - on * rod);
        lemma_mul_is_associative(sn, rod, od);
        assert(sn * (rod * od) == (ron * od - on * rod) * od);
        assert(rat_eq(new_rout@, rat_sub(reserve_out@, out@)));
        assert(amount_in.n == 0 ==> rat_eq(new_rin@, reserve_in@)) by (nonlinear_arith)
            requires
                new_rin.n as int == (reserve_in.n as int) * (amount_in.d as int) + (
                amount_in.n as int) * (reserve_in.d as int),
                new_rin.d as int == (reserve_in.d as int) * (amount_in.d as int),
        ;
        assert(amount_in.n == 0 ==> rat_eq(new_rout@, reserve_out@)) by (nonlinear_arith)
            requires
                new_rout.n as int == (reserve_out.n as int) * (reserve_in.n as int) * (
                amount_in.d as int) * (fee_rate.d as int),
                new_rout.d as int == (reserve_out.d as int) * inner,
                inner == (reserve_in.n as int) * (amount_in.d as int) * (fee_rate.d as int) + (
                amount_in.n as int) * c * (reserve_in.d as int),
        ;
    }
    Ok((out, new_rin, new_rout))
}

/// The liquidity state of a trading pair: two distinct token symbols
/// with their balances, and the pool's fee rate.
#[derive(Clone, Debug)]
pub struct ReservePool {
    pub token_a: String,
    pub reserve_a: Rat,
    pub token_b: String,
    pub reserve_b: Rat,
    pub fee_rate: Rat,
}

impl ReservePool {
    /// The pool's invariant: distinct symbols, well-formed balances, a
    /// fee rate in `[0, 1)`.
    pub open spec fn wf(&self) -> bool {
        &&& self.token_a@ != self.token_b@
        &&& self.reserve_a.wf()
        &&& self.reserve_b.wf()
        &&& fee_ok(self.fee_rate@)
    }

    /// Every numeric component is small enough for a swap to be
    /// evaluated without overflow.
    pub open spec fn bounded(&self) -> bool {
        &&& self.reserve_a.bounded()
        &&& self.reserve_b.bounded()
        &&& self.fee_rate.bounded()
    }

    /// Builds a fresh pool from caller-supplied values.
    pub fn new(token_a: String, reserve_a: Rat, token_b: String, reserve_b: Rat, fee_rate: Rat) -> (p: ReservePool)
        requires
            token_a@ != token_b@,
            reserve_a.wf(),
            reserve_b.wf(),
            0 <= fee_rate.n < fee_rate.d,
        ensures
            p.token_a == token_a,
            p.reserve_a == reserve_a,
            p.token_b == token_b,
            p.reserve_b == reserve_b,
            p.fee_rate == fee_rate,
            p.wf(),
    {
        ReservePool { token_a, reserve_a, token_b, reserve_b, fee_rate }
    }

    /// The balance held for `token`, or `None` when the pool does not
    /// trade that token.
    pub fn reserve_of(&self, token: &String) -> (r: Option<Rat>)
        requires
            self.wf(),
        ensures
            token@ == self.token_a@ ==> r == Some(self.reserve_a),
            token@ == self.token_b@ ==> r == Some(self.reserve_b),
            token@ != self.token_a@ && token@ != self.token_b@ ==> r is None,
    {
        if *token == self.token_a {
            Some(self.reserve_a)
        } else if *token == self.token_b {
            Some(self.reserve_b)
        } else {
            None
        }
    }

    /// Applies a swap of `amount_in` units of `input_token` to the pool:
    /// returns the amount of the other token released together with the
    /// post-trade pool snapshot, leaving this pool untouched.
    ///
    /// Fails with `UnknownToken` when `input_token` is neither pool
    /// symbol; otherwise succeeds exactly when the matched reserves are
    /// both strictly positive and the amount is non-negative.
    pub fn apply_swap(&self, input_token: &String, amount_in: &Rat) -> (r: Result<
        (Rat, ReservePool),
        SwapError,
    >)
        requires
            self.wf(),
            self.bounded(),
            amount_in.bounded(),
        ensures
            r == Err::<(Rat, ReservePool), SwapError>(SwapError::UnknownToken) <==> (input_token@
                != self.token_a@ && input_token@ != self.token_b@),
            input_token@ == self.token_a@ ==> {
                &&& (r is Ok <==> quote_error(self.reserve_a@, self.reserve_b@, amount_in@) is None)
                &&& (r matches Err(e) ==> quote_error(self.reserve_a@, self.reserve_b@, amount_in@)
                    == Some(e))
                &&& (r matches Ok(op) ==> {
                    &&& swap_applied(
                        self.reserve_a,
                        self.reserve_b,
                        *amount_in,
                        self.fee_rate,
                        op.0,
                        op.1.reserve_a,
                        op.1.reserve_b,
                    )
                    &&& op.1.token_a@ == self.token_a@
                    &&& op.1.token_b@ == self.token_b@
                    &&& op.1.fee_rate == self.fee_rate
                    &&& op.1.wf()
                })
            },
            input_token@ == self.token_b@ ==> {
                &&& (r is Ok <==> quote_error(self.reserve_b@, self.reserve_a@, amount_in@) is None)
                &&& (r matches Err(e) ==> quote_error(self.reserve_b@, self.reserve_a@, amount_in@)
                    == Some(e))
                &&& (r matches Ok(op) ==> {
                    &&& swap_applied(
                        self.reserve_b,
                        self.reserve_a,
                        *amount_in,
                        self.fee_rate,
                        op.0,
                        op.1.reserve_b,
                        op.1.reserve_a,
                    )
                    &&& op.1.token_a@ == self.token_a@
                    &&& op.1.token_b@ == self.token_b@
                    &&& op.1.fee_rate == self.fee_rate
                    &&& op.1.wf()
                })
            },
    {
        if *input_token == self.token_a {
            match settle(&self.reserve_a, &self.reserve_b, amount_in, &self.fee_rate) {
                Ok((out, new_ra, new_rb)) => Ok(
                    (
                        out,
                        ReservePool {
                            token_a: self.token_a.clone(),
                            reserve_a: new_ra,
                            token_b: self.token_b.clone(),
                            reserve_b: new_rb,
                            fee_rate: self.fee_rate,
                        },
                    ),
                ),
                Err(e) => Err(e),
            }
        } else if *input_token == self.token_b {
            match settle(&self.reserve_b, &self.reserve_a, amount_in, &self.fee_rate) {
                Ok((out, new_rb, new_ra)) => Ok(
                    (
                        out,
                        ReservePool {
                            token_a: self.token_a.clone(),
                            reserve_a: new_ra,
                            token_b: self.token_b.clone(),
                            reserve_b: new_rb,
                            fee_rate: self.fee_rate,
                        },
                    ),
                ),
                Err(e) => Err(e),
            }
        } else {
            Err(SwapError::UnknownToken)
        }
    }
}

/// The protocol's default fee rate: 0.3 percent, as the exact fraction
/// `3 / 1000`.
pub fn default_fee_rate() -> (r: Rat)
    ensures
        r@ == (3int, 1000int),
        r.bounded(),
        fee_ok(r@),
{
    Rat { n: 3, d: 1000 }
}

} // verus!
