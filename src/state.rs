//! The persisted records a trade reads: the global configuration and the per-token record.
//! Account keys are held as their 32 bytes.
use vstd::prelude::*;

use crate::curve::SmoothBondingCurve;
use crate::errors::CustomError;

verus! {

/// Global configuration, shared by every token.
#[derive(Debug, Clone, Copy)]
pub struct XyberCore {
    pub admin: [u8; 32],
    /// Graduation threshold, in whole base-asset units valued at the reference price.
    pub grad_threshold: u64,
    pub total_supply: u64,
    /// The curve that prices every token.
    pub bonding_curve: SmoothBondingCurve,
    /// The one payment asset that the sale accepts.
    pub accepted_base_mint: [u8; 32],
    /// Owner of the treasury's payment account.
    pub treasury_wallet: [u8; 32],
    /// Commission rate, in basis points.
    pub commission_rate: u64,
}

/// One record per token.
#[derive(Debug, Clone, Copy)]
pub struct XyberToken {
    /// Set once, when the pool crosses the graduation threshold; the sale is closed after that.
    pub is_graduated: bool,
    pub mint: [u8; 32],
    pub vault: [u8; 32],
    pub creator: [u8; 32],
    /// Owner of the agent's payment account.
    pub agent_wallet_pubkey: [u8; 32],
    /// Number of chains the sale spans; each one past the first raises the threshold.
    pub total_chains: u8,
}

/// An update of the global configuration: each field that is present replaces the current one.
#[derive(Debug, Clone, Copy)]
pub struct InitCoreParams {
    pub admin: Option<[u8; 32]>,
    pub grad_threshold: Option<u64>,
    pub bonding_curve: Option<SmoothBondingCurve>,
    pub accepted_base_mint: Option<[u8; 32]>,
    pub total_supply: Option<u64>,
}

/// What a creator supplies to launch a token.
#[derive(Debug, Clone)]
pub struct TokenParams {
    pub name: String,
    pub symbol: String,
    pub uri: String,
    pub total_chains: u8,
}

/// Curve parameters that meet the curve's invariant: `A > 0` and `K > 0`.
pub open spec fn curve_params_valid(curve: SmoothBondingCurve) -> bool {
    curve.a_total_tokens > 0 && curve.k_virtual_pool_offset > 0
}

/// Applies an update to the global configuration. Only the admin, the threshold, the curve and
/// the accepted mint are taken; `total_supply` in the update is not applied. An update whose
/// new curve has `A` or `K` zero is refused with `InvalidCurveParameters`, and nothing of it is
/// applied.
pub fn fill_core_fields(core: &mut XyberCore, params: &InitCoreParams) -> (r: Result<
    (),
    CustomError,
>)
    ensures
        r is Err <==> (params.bonding_curve matches Some(c) && !curve_params_valid(c)),
        r is Err ==> r == Err::<(), CustomError>(CustomError::InvalidCurveParameters),
        r is Err ==> *final(core) == *old(core),
        r is Ok ==> final(core).admin == (match params.admin {
            Some(a) => a,
            None => old(core).admin,
        }),
        r is Ok ==> final(core).grad_threshold == (match params.grad_threshold {
            Some(t) => t,
            None => old(core).grad_threshold,
        }),
        r is Ok ==> final(core).bonding_curve == (match params.bonding_curve {
            Some(c) => c,
            None => old(core).bonding_curve,
        }),
        r is Ok ==> final(core).accepted_base_mint == (match params.accepted_base_mint {
            Some(m) => m,
            None => old(core).accepted_base_mint,
        }),
        final(core).total_supply == old(core).total_supply,
        final(core).treasury_wallet == old(core).treasury_wallet,
        final(core).commission_rate == old(core).commission_rate,
{
    if let Some(bonding_curve) = params.bonding_curve {
        if bonding_curve.a_total_tokens == 0 || bonding_curve.k_virtual_pool_offset == 0 {
            return Err(CustomError::InvalidCurveParameters);
        }
    }
    if let Some(admin) = params.admin {
        core.admin = admin;
    }
    if let Some(grad_threshold) = params.grad_threshold {
        core.grad_threshold = grad_threshold;
    }
    if let Some(bonding_curve) = params.bonding_curve {
        core.bonding_curve = bonding_curve;
    }
    if let Some(accepted_base_mint) = params.accepted_base_mint {
        core.accepted_base_mint = accepted_base_mint;
    }
    Ok(())
}

} // verus!
