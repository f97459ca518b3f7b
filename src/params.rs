//! The parameters of the sale as deployed.
use vstd::prelude::*;

use crate::curve::SmoothBondingCurve;

verus! {

/// Smallest units in one whole unit of the base asset.
pub const LAMPORTS_PER_SOL: u64 = 1_000_000_000;

/// Decimals of the issued token.
pub const DECIMALS: u8 = 9;

/// `A`: the asymptotic supply, in whole tokens.
pub const TOTAL_TOKENS: u64 = 1_073_000_191;

/// `C`: the virtual offset, 30 whole base units.
pub const VIRTUAL_POOL_OFFSET: u64 = 30 * LAMPORTS_PER_SOL;

/// `K`: the scale numerator, `32_190_005_730` whole base units times a token.
pub const BONDING_SCALE_FACTOR: u128 = 32_190_005_730_000_000_000;

/// The deployed curve: its supply is zero at zero deposit.
pub fn deployed_curve() -> (r: SmoothBondingCurve)
    ensures
        r.a_total_tokens == TOTAL_TOKENS,
        r.k_virtual_pool_offset == BONDING_SCALE_FACTOR,
        r.c_bonding_scale_factor == VIRTUAL_POOL_OFFSET,
        r.defined_at(0),
        r.supply(0) == 0,
{
    SmoothBondingCurve {
        a_total_tokens: TOTAL_TOKENS,
        k_virtual_pool_offset: BONDING_SCALE_FACTOR,
        c_bonding_scale_factor: VIRTUAL_POOL_OFFSET,
    }
}

} // verus!
