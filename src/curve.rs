use vstd::prelude::*;

use crate::arith::{lemma_quotient_antitone, lemma_quotient_bounds, lemma_quotient_of_quotient};
use crate::errors::CustomError;

verus! {

/// The smooth bonding curve `y(x) = A - K / (C + x)`, all in unsigned integers.
///
/// - `A` (`a_total_tokens`): the asymptotic supply, never reached;
/// - `K` (`k_virtual_pool_offset`): the scale numerator, in token units times base units;
/// - `C` (`c_bonding_scale_factor`): the virtual offset added to the deposit, in base units.
///
/// The curve holds no deposit: every operation is handed the current cumulative deposit `x`
/// and returns the new one.
#[derive(Debug, Clone, Copy)]
pub struct SmoothBondingCurve {
    pub a_total_tokens: u64,
    pub k_virtual_pool_offset: u128,
    pub c_bonding_scale_factor: u64,
}

impl SmoothBondingCurve {
    /// `C + x`, the denominator of the curve at deposit `x`.
    pub open spec fn offset_deposit(self, x: int) -> int {
        self.c_bonding_scale_factor as int + x
    }

    /// The curve has a value at `x`: its denominator is positive and `K / (C + x)` does not
    /// exceed `A`.
    pub open spec fn defined_at(self, x: int) -> bool {
        &&& self.offset_deposit(x) > 0
        &&& self.k_virtual_pool_offset as int / self.offset_deposit(x) <= self.a_total_tokens
    }

    /// `y(x) = A - floor(K / (C + x))`, the issued supply at deposit `x`.
    pub open spec fn supply(self, x: int) -> int {
        self.a_total_tokens as int - self.k_virtual_pool_offset as int / self.offset_deposit(x)
    }

    /// `K / (A - y) - C`: the deposit on which the inverse of the curve lands for a target
    /// supply `y < A`.
    pub open spec fn inverse_deposit(self, y: int) -> int {
        self.k_virtual_pool_offset as int / (self.a_total_tokens as int - y)
            - self.c_bonding_scale_factor as int
    }

    /// What `solve_for_x_prime(new_y)` returns.
    pub open spec fn spec_solve_for_x_prime(self, new_y: int) -> Result<u128, CustomError> {
        if new_y >= self.a_total_tokens {
            Err(CustomError::InsufficientTokenSupply)
        } else if self.inverse_deposit(new_y) < 0 {
            Err(CustomError::MathOverflow)
        } else {
            Ok(self.inverse_deposit(new_y) as u128)
        }
    }

    /// What `buy_exact_input(old_x, base_in)` returns: the tokens minted and the new deposit
    /// `old_x + base_in`.
    pub open spec fn spec_buy_exact_input(self, old_x: u64, base_in: u64) -> Result<
        (u64, u64),
        CustomError,
    > {
        let new_x = old_x + base_in;
        if new_x > u64::MAX || !self.defined_at(old_x as int) {
            Err(CustomError::MathOverflow)
        } else if self.supply(new_x) >= self.a_total_tokens {
            Err(CustomError::InsufficientTokenSupply)
        } else {
            Ok(((self.supply(new_x) - self.supply(old_x as int)) as u64, new_x as u64))
        }
    }

    /// What `buy_exact_output(old_x, tokens_out)` returns: the base asset required and the new
    /// deposit `K / (A - y(old_x) - tokens_out) - C`.
    pub open spec fn spec_buy_exact_output(self, old_x: u64, tokens_out: u64) -> Result<
        (u64, u64),
        CustomError,
    > {
        let new_y = self.supply(old_x as int) + tokens_out;
        if !self.defined_at(old_x as int) {
            Err(CustomError::MathOverflow)
        } else if new_y >= self.a_total_tokens {
            Err(CustomError::InsufficientTokenSupply)
        } else if self.inverse_deposit(new_y) > u64::MAX {
            Err(CustomError::MathOverflow)
        } else {
            Ok(
                (
                    (self.inverse_deposit(new_y) - old_x) as u64,
                    self.inverse_deposit(new_y) as u64,
                ),
            )
        }
    }

    /// What `sell_exact_input(old_x, tokens_in)` returns: the base asset paid out and the new
    /// deposit `K / (A - y(old_x) + tokens_in) - C`.
    pub open spec fn spec_sell_exact_input(self, old_x: u64, tokens_in: u64) -> Result<
        (u64, u64),
        CustomError,
    > {
        let new_y = self.supply(old_x as int) - tokens_in;
        if !self.defined_at(old_x as int) {
            Err(CustomError::MathOverflow)
        } else if new_y < 0 || new_y >= self.a_total_tokens {
            Err(CustomError::InsufficientTokenSupply)
        } else if self.inverse_deposit(new_y) < 0 || self.inverse_deposit(new_y) > old_x {
            Err(CustomError::MathOverflow)
        } else {
            Ok(((old_x - self.inverse_deposit(new_y)) as u64, self.inverse_deposit(new_y) as u64))
        }
    }

    /// What `sell_exact_output(old_x, base_out)` returns: the tokens burned and the new deposit
    /// `old_x - base_out`.
    pub open spec fn spec_sell_exact_output(self, old_x: u64, base_out: u64) -> Result<
        (u64, u64),
        CustomError,
    > {
        let new_x = old_x - base_out;
        if new_x < 0 {
            Err(CustomError::InsufficientTokenSupply)
        } else if !self.defined_at(old_x as int) {
            Err(CustomError::MathOverflow)
        } else if !self.defined_at(new_x) {
            Err(CustomError::MathOverflow)
        } else {
            Ok(((self.supply(old_x as int) - self.supply(new_x)) as u64, new_x as u64))
        }
    }

    /// Where the curve has a value at `x1`, it has one at every larger deposit, and the supply
    /// there is no smaller.
    pub proof fn lemma_defined_upward(self, x1: int, x2: int)
        requires
            self.defined_at(x1),
            x1 <= x2,
        ensures
            self.defined_at(x2),
            self.supply(x1) <= self.supply(x2),
            self.supply(x2) <= self.a_total_tokens,
            0 <= self.supply(x1),
    {
        lemma_quotient_antitone(
            self.k_virtual_pool_offset as int,
            self.offset_deposit(x1),
            self.offset_deposit(x2),
        );
        lemma_quotient_bounds(self.k_virtual_pool_offset as int, self.offset_deposit(x2));
    }

    /// The inverse lands at or above any deposit whose supply is at least the target, and the
    /// supply where it lands does not exceed the target.
    pub proof fn lemma_inverse_bounds(self, x: int, y: int)
        requires
            self.defined_at(x),
            self.supply(x) <= y < self.a_total_tokens,
        ensures
            self.inverse_deposit(y) >= x,
            self.defined_at(self.inverse_deposit(y)),
            self.supply(self.inverse_deposit(y)) <= y,
    {
        let k = self.k_virtual_pool_offset as int;
        let m = self.offset_deposit(x);
        let q = k / m;
        let d = self.a_total_tokens as int - y;
        // d <= q, so k / d >= k / q >= m
        lemma_quotient_antitone(k, d, q);
        lemma_quotient_of_quotient(k, m);
        let n = k / d;
        assert(n >= m);
        lemma_quotient_antitone(k, m, n);
        lemma_quotient_bounds(k, d);
        lemma_quotient_of_quotient(k, d);
        assert(self.offset_deposit(self.inverse_deposit(y)) == n);
    }

    /// Issued supply at deposit `x_val`; fails with `MathOverflow` where the curve has no value.
    pub fn y_of_x(&self, x_val: u64) -> (r: Result<u64, CustomError>)
        ensures
            r == (if self.defined_at(x_val as int) {
                Ok::<u64, CustomError>(self.supply(x_val as int) as u64)
            } else {
                Err(CustomError::MathOverflow)
            }),
    {
        // C + x cannot overflow in the double-width type.
        let denom: u128 = self.c_bonding_scale_factor as u128 + x_val as u128;
        if denom == 0 {
            return Err(CustomError::MathOverflow);
        }
        let k_over_denom: u128 = self.k_virtual_pool_offset / denom;
        if k_over_denom > self.a_total_tokens as u128 {
            return Err(CustomError::MathOverflow);
        }
        Ok(self.a_total_tokens - k_over_denom as u64)
    }
    /// Solves `new_y = A - K / (C + x')` for `x' = K / (A - new_y) - C`.
    pub fn solve_for_x_prime(&self, new_y: u128) -> (r: Result<u128, CustomError>)
        ensures
            r == self.spec_solve_for_x_prime(new_y as int),
    {
        if new_y >= self.a_total_tokens as u128 {
            return Err(CustomError::InsufficientTokenSupply);
        }
        let a_minus_new_y: u128 = self.a_total_tokens as u128 - new_y;
        let big_val: u128 = self.k_virtual_pool_offset / a_minus_new_y;
        if big_val < self.c_bonding_scale_factor as u128 {
            return Err(CustomError::MathOverflow);
        }
        Ok(big_val - self.c_bonding_scale_factor as u128)
    }

    /// Buys with an exact base-asset input; returns the tokens minted and the new deposit.
    pub fn buy_exact_input(&self, old_x: u64, base_in: u64) -> (r: Result<(u64, u64), CustomError>)
        ensures
            r == self.spec_buy_exact_input(old_x, base_in),
    {
        if base_in > u64::MAX - old_x {
            return Err(CustomError::MathOverflow);
        }
        let new_x: u64 = old_x + base_in;
        let old_y = self.y_of_x(old_x)?;
        proof {
            self.lemma_defined_upward(old_x as int, new_x as int);
        }
        let new_y = self.y_of_x(new_x)?;
        if new_y >= self.a_total_tokens {
            return Err(CustomError::InsufficientTokenSupply);
        }
        Ok((new_y - old_y, new_x))
    }

    /// Buys an exact number of tokens; returns the base asset required and the new deposit.
    pub fn buy_exact_output(&self, old_x: u64, tokens_out: u64) -> (r: Result<
        (u64, u64),
        CustomError,
    >)
        ensures
            r == self.spec_buy_exact_output(old_x, tokens_out),
            self.defined_at(old_x as int) && self.supply(old_x as int) + tokens_out
                >= self.a_total_tokens ==> r == Err::<(u64, u64), CustomError>(
                CustomError::InsufficientTokenSupply,
            ),
    {
        let old_y = self.y_of_x(old_x)?;
        // Cannot overflow in the double-width type.
        let new_y: u128 = old_y as u128 + tokens_out as u128;
        if new_y < self.a_total_tokens as u128 {
            proof {
                self.lemma_inverse_bounds(old_x as int, new_y as int);
            }
        }
        let x_prime = self.solve_for_x_prime(new_y)?;
        if x_prime > u64::MAX as u128 {
            return Err(CustomError::MathOverflow);
        }
        let base_in: u128 = x_prime - old_x as u128;
        Ok((base_in as u64, x_prime as u64))
    }

    /// Sells an exact number of tokens; returns the base asset paid out and the new deposit.
    pub fn sell_exact_input(&self, old_x: u64, tokens_in: u64) -> (r: Result<
        (u64, u64),
        CustomError,
    >)
        ensures
            r == self.spec_sell_exact_input(old_x, tokens_in),
    {
        let old_y = self.y_of_x(old_x)?;
        if tokens_in > old_y {
            return Err(CustomError::InsufficientTokenSupply);
        }
        let new_y: u64 = old_y - tokens_in;
        let x_prime = self.solve_for_x_prime(new_y as u128)?;
        if x_prime > old_x as u128 {
            return Err(CustomError::MathOverflow);
        }
        let base_out: u128 = old_x as u128 - x_prime;
        Ok((base_out as u64, x_prime as u64))
    }

    /// Withdraws an exact amount of base asset; returns the tokens burned and the new deposit.
    pub fn sell_exact_output(&self, old_x: u64, base_out: u64) -> (r: Result<
        (u64, u64),
        CustomError,
    >)
        ensures
            r == self.spec_sell_exact_output(old_x, base_out),
            base_out > old_x ==> r == Err::<(u64, u64), CustomError>(
                CustomError::InsufficientTokenSupply,
            ),
    {
        if base_out > old_x {
            return Err(CustomError::InsufficientTokenSupply);
        }
        let old_y = self.y_of_x(old_x)?;
        let new_x: u64 = old_x - base_out;
        let new_y = self.y_of_x(new_x)?;
        proof {
            self.lemma_defined_upward(new_x as int, old_x as int);
        }
        Ok((old_y - new_y, new_x))
    }
}

} // verus!
