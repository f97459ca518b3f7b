//! One swap against the curve: admission checks, pricing, slippage and balance bounds,
//! commission split and the graduation decision. Every check runs before anything moves: the
//! caller performs the returned movements only on `Ok`.
use vstd::prelude::*;

use crate::errors::CustomError;
use crate::state::{XyberCore, XyberToken};

verus! {

/// Basis points in a whole.
pub const BPS_DENOMINATOR: u64 = 10_000;

/// Which escrow balance the graduation check of a buy reads: both include the trade's inbound
/// payment; they differ in whether the commission has already left the escrow.
#[derive(Debug, Clone, Copy, PartialEq, Eq, Structural)]
pub enum GraduationBasis {
    /// Escrow balance with the whole payment in it, commission included.
    GrossOfCommission,
    /// Escrow balance after the commission has been paid out of it.
    NetOfCommission,
}

/// How a buy decides graduation.
#[derive(Debug, Clone, Copy, PartialEq, Eq, Structural)]
pub struct GraduationPolicy {
    pub basis: GraduationBasis,
    /// Value of one whole base-asset unit, in the unit of the threshold.
    pub reference_price: u64,
}

/// The ledger around one trade, as read before it.
#[derive(Debug, Clone, Copy)]
pub struct TradeLedger {
    /// Escrow balance of the payment asset: the curve's cumulative deposit.
    pub escrow_balance: u64,
    /// Tokens left in the vault, in raw ledger units.
    pub vault_balance: u64,
    /// The payment asset that the trader offers.
    pub payment_mint: [u8; 32],
    pub payment_decimals: u8,
    pub token_decimals: u8,
    /// The agent's payment account given with the trade, and the one it must be.
    pub agent_payment_account: [u8; 32],
    pub expected_agent_account: [u8; 32],
    /// The treasury's payment account given with the trade, and the one it must be.
    pub treasury_payment_account: [u8; 32],
    pub expected_treasury_account: [u8; 32],
}

/// A commission, split between the agent and the treasury.
#[derive(Debug, Clone, Copy, PartialEq, Eq, Structural)]
pub struct CommissionSplit {
    pub agent_share: u64,
    pub treasury_share: u64,
}

/// What a successful trade moves, and what the caller persists.
#[derive(Debug, Clone, Copy, PartialEq, Eq, Structural)]
pub struct SwapResult {
    /// Base asset that the trader pays in (buys) or receives (sells).
    pub base_amount: u64,
    /// Tokens traded, in curve units.
    pub token_amount: u64,
    /// Tokens traded, in raw ledger units: `token_amount * 10^token_decimals`.
    pub raw_token_amount: u64,
    /// Commission paid out of the escrow.
    pub commission: CommissionSplit,
    /// Cumulative deposit after the trade.
    pub new_x: u64,
    /// The trade crossed the graduation threshold.
    pub graduated: bool,
}

/// `10^e`.
pub open spec fn pow10(e: nat) -> nat
    decreases e,
{
    if e == 0 {
        1
    } else {
        10 * pow10((e - 1) as nat)
    }
}

proof fn lemma_pow10_grows(i: nat, j: nat)
    requires
        i <= j,
    ensures
        pow10(i) <= pow10(j),
        1 <= pow10(i),
    decreases j,
{
    if j > 0 {
        if i < j {
            lemma_pow10_grows(i, (j - 1) as nat);
        } else {
            lemma_pow10_grows((i - 1) as nat, (j - 1) as nat);
        }
    }
}

/// `10^e`, or `None` where it does not fit in `u64`.
pub fn checked_pow10(e: u8) -> (r: Option<u64>)
    ensures
        r == (if pow10(e as nat) <= u64::MAX {
            Some(pow10(e as nat) as u64)
        } else {
            None::<u64>
        }),
{
    let mut acc: u64 = 1;
    let mut i: u8 = 0;
    while i < e
        invariant
            i <= e,
            acc == pow10(i as nat),
        decreases e - i,
    {
        if acc > u64::MAX / 10 {
            proof {
                lemma_pow10_grows((i + 1) as nat, e as nat);
            }
            return None;
        }
        acc = acc * 10;
        i = i + 1;
    }
    Some(acc)
}

/// The two keys hold the same bytes.
pub fn same_key(a: &[u8; 32], b: &[u8; 32]) -> (r: bool)
    ensures
        r == (a@ == b@),
{
    let mut i: usize = 0;
    while i < 32
        invariant
            i <= 32,
            a@.len() == 32,
            b@.len() == 32,
            forall|j: int| 0 <= j < i ==> a@[j] == b@[j],
        decreases 32 - i,
    {
        if a[i] != b[i] {
            return false;
        }
        i = i + 1;
    }
    assert(a@ =~= b@);
    true
}

/// What `effective_threshold_for_chains` returns: the threshold raised by 25% for each chain
/// past the first, `base * (100 + 25 * (chains - 1)) / 100`.
pub open spec fn spec_effective_threshold(base_threshold: u64, chain_count: u8) -> Result<
    u64,
    CustomError,
> {
    if chain_count <= 1 {
        Ok(base_threshold)
    } else {
        let percent = 100 + 25 * (chain_count - 1);
        if base_threshold * percent > u64::MAX {
            Err(CustomError::MathOverflow)
        } else {
            Ok((base_threshold * percent / 100) as u64)
        }
    }
}

/// The graduation threshold of a sale that spans `chain_count` chains.
pub fn effective_threshold_for_chains(base_threshold: u64, chain_count: u8) -> (r: Result<
    u64,
    CustomError,
>)
    ensures
        r == spec_effective_threshold(base_threshold, chain_count),
{
    if chain_count <= 1 {
        return Ok(base_threshold);
    }
    let extra_chains: u64 = (chain_count - 1) as u64;
    let total_percent: u64 = 100 + 25 * extra_chains;
    match base_threshold.checked_mul(total_percent) {
        Some(scaled) => Ok(scaled / 100),
        None => Err(CustomError::MathOverflow),
    }
}

/// What `commission_split` returns: the commission `amount * rate_bps / 10000`, half of it
/// (rounded down) to the agent and the rest to the treasury.
pub open spec fn spec_commission(amount: u64, rate_bps: u64) -> Result<CommissionSplit, CustomError> {
    if amount * rate_bps > u64::MAX {
        Err(CustomError::MathOverflow)
    } else {
        let commission = amount * rate_bps / 10_000;
        Ok(
            CommissionSplit {
                agent_share: (commission / 2) as u64,
                treasury_share: (commission - commission / 2) as u64,
            },
        )
    }
}

/// The whole commission.
pub open spec fn commission_total(split: CommissionSplit) -> int {
    split.agent_share + split.treasury_share
}

/// Splits the commission on a traded base amount between the agent and the treasury; the
/// treasury's share absorbs the rounding.
pub fn commission_split(amount: u64, rate_bps: u64) -> (r: Result<CommissionSplit, CustomError>)
    ensures
        r == spec_commission(amount, rate_bps),
        r matches Ok(split) ==> commission_total(split) == amount * rate_bps / 10_000,
{
    match amount.checked_mul(rate_bps) {
        Some(product) => {
            let commission: u64 = product / BPS_DENOMINATOR;
            let agent_share: u64 = commission / 2;
            Ok(CommissionSplit { agent_share, treasury_share: commission - agent_share })
        },
        None => Err(CustomError::MathOverflow),
    }
}

/// What `check_admission` returns: the first of the checks that every trade passes before it
/// is priced.
pub open spec fn spec_admission(core: XyberCore, token: XyberToken, ledger: TradeLedger) -> Result<
    (),
    CustomError,
> {
    if token.is_graduated {
        Err(CustomError::TokenIsGraduated)
    } else if ledger.payment_mint@ != core.accepted_base_mint@ {
        Err(CustomError::WrongPaymentMint)
    } else if ledger.agent_payment_account@ != ledger.expected_agent_account@ {
        Err(CustomError::InvalidAgentTokenAccount)
    } else if ledger.treasury_payment_account@ != ledger.expected_treasury_account@ {
        Err(CustomError::InvalidTreasuryTokenAccount)
    } else {
        Ok(())
    }
}

/// Rejects a trade on a graduated sale, in a foreign payment asset, or with commission accounts
/// other than the expected ones.
pub fn check_admission(core: &XyberCore, token: &XyberToken, ledger: &TradeLedger) -> (r: Result<
    (),
    CustomError,
>)
    ensures
        r == spec_admission(*core, *token, *ledger),
{
    if token.is_graduated {
        return Err(CustomError::TokenIsGraduated);
    }
    if !same_key(&ledger.payment_mint, &core.accepted_base_mint) {
        return Err(CustomError::WrongPaymentMint);
    }
    if !same_key(&ledger.agent_payment_account, &ledger.expected_agent_account) {
        return Err(CustomError::InvalidAgentTokenAccount);
    }
    if !same_key(&ledger.treasury_payment_account, &ledger.expected_treasury_account) {
        return Err(CustomError::InvalidTreasuryTokenAccount);
    }
    Ok(())
}

/// What `raw_token_amount` returns: `amount * 10^decimals`, where it fits.
pub open spec fn spec_raw_tokens(amount: u64, decimals: u8) -> Result<u64, CustomError> {
    if pow10(decimals as nat) > u64::MAX || amount * pow10(decimals as nat) > u64::MAX {
        Err(CustomError::MathOverflow)
    } else {
        Ok((amount * pow10(decimals as nat)) as u64)
    }
}

/// Converts a token amount in curve units to raw ledger units.
pub fn raw_token_amount(amount: u64, decimals: u8) -> (r: Result<u64, CustomError>)
    ensures
        r == spec_raw_tokens(amount, decimals),
{
    match checked_pow10(decimals) {
        Some(unit) => match amount.checked_mul(unit) {
            Some(raw) => Ok(raw),
            None => Err(CustomError::MathOverflow),
        },
        None => Err(CustomError::MathOverflow),
    }
}

/// What `graduates` returns: whether the escrow balance `escrow_after`, in whole base units at
/// the reference price, meets the sale's effective threshold.
pub open spec fn spec_graduates(
    core: XyberCore,
    token: XyberToken,
    ledger: TradeLedger,
    policy: GraduationPolicy,
    escrow_after: int,
) -> Result<bool, CustomError> {
    let unit = pow10(ledger.payment_decimals as nat);
    let value = escrow_after / (unit as int) * policy.reference_price;
    if escrow_after > u64::MAX || unit > u64::MAX || value > u64::MAX {
        Err(CustomError::MathOverflow)
    } else {
        match spec_effective_threshold(core.grad_threshold, token.total_chains) {
            Err(e) => Err(e),
            Ok(threshold) => Ok(value >= threshold),
        }
    }
}

/// Decides whether a buy that leaves `escrow_after` in the escrow graduates the sale.
pub fn graduates(
    core: &XyberCore,
    token: &XyberToken,
    ledger: &TradeLedger,
    policy: &GraduationPolicy,
    escrow_after: Option<u64>,
) -> (r: Result<bool, CustomError>)
    ensures
        escrow_after matches Some(e) ==> r == spec_graduates(*core, *token, *ledger, *policy, e as int),
        escrow_after is None ==> r == Err::<bool, CustomError>(CustomError::MathOverflow),
{
    let escrow_after = match escrow_after {
        Some(e) => e,
        None => return Err(CustomError::MathOverflow),
    };
    let unit = match checked_pow10(ledger.payment_decimals) {
        Some(u) => u,
        None => return Err(CustomError::MathOverflow),
    };
    proof {
        lemma_pow10_grows(0, ledger.payment_decimals as nat);
    }
    let whole_units: u64 = escrow_after / unit;
    let value = match whole_units.checked_mul(policy.reference_price) {
        Some(v) => v,
        None => return Err(CustomError::MathOverflow),
    };
    let threshold = effective_threshold_for_chains(core.grad_threshold, token.total_chains)?;
    Ok(value >= threshold)
}

} // verus!
