//! Laws of the curve that relate its operations to one another.
use vstd::prelude::*;

use crate::arith::{lemma_quotient_drop_shrinks, lemma_quotient_gap, lemma_quotient_of_quotient};
use crate::curve::SmoothBondingCurve;
use crate::errors::CustomError;

verus! {

impl SmoothBondingCurve {
    /// The curve has a value at `x` and the supply there is strictly below the asymptote.
    pub open spec fn below_asymptote(self, x: int) -> bool {
        self.defined_at(x) && self.supply(x) < self.a_total_tokens
    }

    /// The inverse recovers the deposit `x` from its supply without rounding:
    /// `K / (K / (C + x)) == C + x`.
    pub open spec fn inverse_is_exact(self, x: int) -> bool {
        let k = self.k_virtual_pool_offset as int;
        k / (k / self.offset_deposit(x)) == self.offset_deposit(x)
    }

    /// The marginal price `(C + x)^2 / K` at `x1` is below the one at `x2`.
    pub open spec fn marginal_price_below(self, x1: int, x2: int) -> bool {
        let k = self.k_virtual_pool_offset as int;
        self.offset_deposit(x1) * self.offset_deposit(x1) * k < self.offset_deposit(x2)
            * self.offset_deposit(x2) * k
    }
}

/// The issued supply never decreases as the deposit grows, and it rises by at least one token
/// unit wherever the exact curve rises by at least one, that is where
/// `K * (x2 - x1) >= (C + x1) * (C + x2)`.
pub proof fn lemma_supply_monotone(curve: SmoothBondingCurve, x1: int, x2: int)
    requires
        curve.defined_at(x1),
        x1 <= x2,
    ensures
        curve.defined_at(x2),
        curve.supply(x1) <= curve.supply(x2),
        x1 < x2 && curve.k_virtual_pool_offset as int * (x2 - x1) >= curve.offset_deposit(x1)
            * curve.offset_deposit(x2) ==> curve.supply(x1) < curve.supply(x2),
{
    curve.lemma_defined_upward(x1, x2);
    if x1 < x2 && curve.k_virtual_pool_offset as int * (x2 - x1) >= curve.offset_deposit(x1)
        * curve.offset_deposit(x2) {
        lemma_quotient_gap(
            curve.k_virtual_pool_offset as int,
            curve.offset_deposit(x1),
            curve.offset_deposit(x2),
        );
    }
}

/// The marginal price `(C + x)^2 / K` strictly increases with the deposit.
pub proof fn lemma_marginal_price_increasing(curve: SmoothBondingCurve, x1: int, x2: int)
    requires
        curve.k_virtual_pool_offset > 0,
        0 <= x1 < x2,
    ensures
        curve.marginal_price_below(x1, x2),
{
    let m1 = curve.offset_deposit(x1);
    let m2 = curve.offset_deposit(x2);
    let k = curve.k_virtual_pool_offset as int;
    assert(m1 * m1 * k < m2 * m2 * k) by (nonlinear_arith)
        requires
            0 <= m1 < m2,
            k > 0,
    ;
}

/// The same deposit buys no more tokens higher up the curve: what `base_in` mints at a deposit
/// `x2 >= x1` is at most what it mints at `x1`, up to one token that the two floor roundings
/// can add.
pub proof fn lemma_later_deposit_mints_no_more(
    curve: SmoothBondingCurve,
    x1: u64,
    x2: u64,
    base_in: u64,
    minted1: u64,
    new_x1: u64,
    minted2: u64,
    new_x2: u64,
)
    requires
        x1 <= x2,
        curve.spec_buy_exact_input(x1, base_in) == Ok::<(u64, u64), CustomError>(
            (minted1, new_x1),
        ),
        curve.spec_buy_exact_input(x2, base_in) == Ok::<(u64, u64), CustomError>(
            (minted2, new_x2),
        ),
    ensures
        minted2 <= minted1 + 1,
{
    curve.lemma_defined_upward(x1 as int, new_x1 as int);
    curve.lemma_defined_upward(x2 as int, new_x2 as int);
    curve.lemma_defined_upward(x1 as int, x2 as int);
    lemma_quotient_drop_shrinks(
        curve.k_virtual_pool_offset as int,
        curve.offset_deposit(x1 as int),
        curve.offset_deposit(x2 as int),
        base_in as int,
    );
}

/// On a curve that has a value at zero deposit, every successful trade from a deposit whose
/// supply is below the asymptote lands on a deposit whose supply is below it too: the issued
/// supply never reaches `A`.
pub proof fn lemma_trades_stay_below_asymptote(curve: SmoothBondingCurve, old_x: u64, amount: u64)
    requires
        curve.defined_at(0),
        curve.supply(old_x as int) < curve.a_total_tokens,
    ensures
        curve.below_asymptote(old_x as int),
        curve.spec_buy_exact_input(old_x, amount) matches Ok((_, x)) ==> curve.below_asymptote(
            x as int,
        ),
        curve.spec_buy_exact_output(old_x, amount) matches Ok((_, x)) ==> curve.below_asymptote(
            x as int,
        ),
        curve.spec_sell_exact_input(old_x, amount) matches Ok((_, x)) ==> curve.below_asymptote(
            x as int,
        ),
        curve.spec_sell_exact_output(old_x, amount) matches Ok((_, x)) ==> curve.below_asymptote(
            x as int,
        ),
{
    curve.lemma_defined_upward(0, old_x as int);
    if let Ok((_, x)) = curve.spec_buy_exact_input(old_x, amount) {
        curve.lemma_defined_upward(old_x as int, x as int);
    }
    if let Ok((_, x)) = curve.spec_buy_exact_output(old_x, amount) {
        curve.lemma_inverse_bounds(old_x as int, curve.supply(old_x as int) + amount);
    }
    if let Ok((_, x)) = curve.spec_sell_exact_input(old_x, amount) {
        curve.lemma_defined_upward(0, x as int);
        curve.lemma_defined_upward(x as int, old_x as int);
    }
    if let Ok((_, x)) = curve.spec_sell_exact_output(old_x, amount) {
        curve.lemma_defined_upward(x as int, old_x as int);
    }
}

/// Buying with `base_in` and at once selling every token received never pays back more than
/// `base_in`: the shortfall is exactly how far the inverse rounds the starting deposit up,
/// `K / (K / (C + old_x)) - (C + old_x)`, which is never negative.
pub proof fn lemma_round_trip_never_gains(
    curve: SmoothBondingCurve,
    old_x: u64,
    base_in: u64,
    tokens: u64,
    mid_x: u64,
    base_back: u64,
    end_x: u64,
)
    requires
        curve.spec_buy_exact_input(old_x, base_in) == Ok::<(u64, u64), CustomError>((tokens, mid_x)),
        curve.spec_sell_exact_input(mid_x, tokens) == Ok::<(u64, u64), CustomError>((base_back, end_x)),
    ensures
        base_back <= base_in,
        end_x >= old_x,
        base_back + (end_x - old_x) == base_in,
        end_x - old_x == curve.k_virtual_pool_offset as int / (curve.k_virtual_pool_offset as int
            / curve.offset_deposit(old_x as int)) - curve.offset_deposit(old_x as int),
{
    let k = curve.k_virtual_pool_offset as int;
    let m = curve.offset_deposit(old_x as int);
    curve.lemma_defined_upward(old_x as int, mid_x as int);
    assert(curve.supply(mid_x as int) - tokens == curve.supply(old_x as int));
    assert(curve.a_total_tokens - curve.supply(old_x as int) == k / m);
    lemma_quotient_of_quotient(k, m);
}

/// Buying, by exact output, the tokens that an exact-input buy of `base_in` minted never costs
/// less than `base_in`; it costs exactly `base_in`, and lands on the same deposit, where the
/// inverse recovers that deposit without rounding.
pub proof fn lemma_exactness_duality(
    curve: SmoothBondingCurve,
    old_x: u64,
    base_in: u64,
    tokens: u64,
    mid_x: u64,
)
    requires
        curve.spec_buy_exact_input(old_x, base_in) == Ok::<(u64, u64), CustomError>((tokens, mid_x)),
    ensures
        curve.spec_buy_exact_output(old_x, tokens) matches Ok((required, x)) ==> required
            >= base_in && x >= mid_x,
        curve.inverse_is_exact(mid_x as int) ==> curve.spec_buy_exact_output(old_x, tokens)
            == Ok::<(u64, u64), CustomError>((base_in, mid_x)),
{
    curve.lemma_defined_upward(old_x as int, mid_x as int);
    let new_y = curve.supply(old_x as int) + tokens;
    assert(new_y == curve.supply(mid_x as int));
    curve.lemma_inverse_bounds(mid_x as int, new_y);
    assert(curve.a_total_tokens - new_y == curve.k_virtual_pool_offset as int / curve.offset_deposit(
        mid_x as int,
    ));
}

/// Withdrawing `base_out` by exact output and then buying back, by exact output, the tokens
/// burned lands at or above the starting deposit, and exactly on it where the inverse recovers
/// that deposit without rounding.
pub proof fn lemma_sell_then_buy_restores_deposit(
    curve: SmoothBondingCurve,
    x: u64,
    base_out: u64,
    burned: u64,
    mid_x: u64,
)
    requires
        curve.spec_sell_exact_output(x, base_out) == Ok::<(u64, u64), CustomError>((burned, mid_x)),
        curve.supply(x as int) < curve.a_total_tokens,
    ensures
        curve.spec_buy_exact_output(mid_x, burned) matches Ok((_, new_x)) ==> new_x >= x,
        curve.inverse_is_exact(x as int) ==> curve.spec_buy_exact_output(mid_x, burned) == Ok::<
            (u64, u64),
            CustomError,
        >((base_out, x)),
{
    curve.lemma_defined_upward(mid_x as int, x as int);
    let new_y = curve.supply(mid_x as int) + burned;
    assert(new_y == curve.supply(x as int));
    curve.lemma_inverse_bounds(x as int, new_y);
    assert(curve.a_total_tokens - new_y == curve.k_virtual_pool_offset as int / curve.offset_deposit(
        x as int,
    ));
}

} // verus!
