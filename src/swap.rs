//! The four trade entry points, one for each direction and exactness. Each one validates the
//! trade, prices it on the curve at the escrow balance (the cumulative deposit), enforces the
//! caller's slippage bound and the pool's balances, splits the commission, and reports what
//! moves; buys also decide graduation. Nothing is mutated here: the caller applies the result.
use vstd::prelude::*;

use crate::errors::CustomError;
use crate::state::{XyberCore, XyberToken};
use crate::trade::{
    check_admission, commission_split, commission_total, graduates, raw_token_amount,
    spec_admission, spec_commission, spec_graduates, spec_raw_tokens,
    GraduationBasis, GraduationPolicy, SwapResult, TradeLedger,
};

verus! {

/// The escrow balance that the graduation check of a buy reads, after the inbound `payment`
/// and, on the net basis, after `commission` has left.
pub open spec fn escrow_after_buy(
    ledger: TradeLedger,
    policy: GraduationPolicy,
    payment: int,
    commission: int,
) -> int {
    match policy.basis {
        GraduationBasis::GrossOfCommission => ledger.escrow_balance + payment,
        GraduationBasis::NetOfCommission => ledger.escrow_balance + payment - commission,
    }
}

/// What `buy_exact_input_instruction` returns. The commission comes out of the payment first;
/// the rest is deposited on the curve.
pub open spec fn spec_buy_exact_input_instruction(
    core: XyberCore,
    token: XyberToken,
    ledger: TradeLedger,
    policy: GraduationPolicy,
    payment_amount: u64,
    min_amount_out: u64,
) -> Result<SwapResult, CustomError> {
    match spec_admission(core, token, ledger) {
        Err(e) => Err(e),
        Ok(_) => match spec_commission(payment_amount, core.commission_rate) {
            Err(e) => Err(e),
            Ok(split) => if commission_total(split) > payment_amount {
                Err(CustomError::MathOverflow)
            } else {
                let net = (payment_amount - commission_total(split)) as u64;
                match core.bonding_curve.spec_buy_exact_input(ledger.escrow_balance, net) {
                    Err(e) => Err(e),
                    Ok((tokens, new_x)) => if tokens < min_amount_out {
                        Err(CustomError::SlippageExceeded)
                    } else {
                        match spec_raw_tokens(tokens, ledger.token_decimals) {
                            Err(e) => Err(e),
                            Ok(raw) => if raw > ledger.vault_balance {
                                Err(CustomError::InsufficientTokenVaultBalance)
                            } else {
                                match spec_graduates(
                                    core,
                                    token,
                                    ledger,
                                    policy,
                                    escrow_after_buy(
                                        ledger,
                                        policy,
                                        payment_amount as int,
                                        commission_total(split),
                                    ),
                                ) {
                                    Err(e) => Err(e),
                                    Ok(graduated) => Ok(
                                        SwapResult {
                                            base_amount: payment_amount,
                                            token_amount: tokens,
                                            raw_token_amount: raw,
                                            commission: split,
                                            new_x,
                                            graduated,
                                        },
                                    ),
                                }
                            },
                        }
                    },
                }
            },
        },
    }
}

/// Buys with an exact payment; fails with `SlippageExceeded` where fewer than
/// `min_amount_out` tokens would come out.
pub fn buy_exact_input_instruction(
    core: &XyberCore,
    token: &XyberToken,
    ledger: &TradeLedger,
    policy: &GraduationPolicy,
    payment_amount: u64,
    min_amount_out: u64,
) -> (r: Result<SwapResult, CustomError>)
    ensures
        r == spec_buy_exact_input_instruction(
            *core,
            *token,
            *ledger,
            *policy,
            payment_amount,
            min_amount_out,
        ),
{
    check_admission(core, token, ledger)?;
    let split = commission_split(payment_amount, core.commission_rate)?;
    let commission: u64 = split.agent_share + split.treasury_share;
    if commission > payment_amount {
        return Err(CustomError::MathOverflow);
    }
    let net_payment: u64 = payment_amount - commission;
    let (tokens_out, new_x) = core.bonding_curve.buy_exact_input(
        ledger.escrow_balance,
        net_payment,
    )?;
    if tokens_out < min_amount_out {
        return Err(CustomError::SlippageExceeded);
    }
    let raw = raw_token_amount(tokens_out, ledger.token_decimals)?;
    if raw > ledger.vault_balance {
        return Err(CustomError::InsufficientTokenVaultBalance);
    }
    let escrow_after = match policy.basis {
        GraduationBasis::GrossOfCommission => ledger.escrow_balance.checked_add(payment_amount),
        GraduationBasis::NetOfCommission => ledger.escrow_balance.checked_add(net_payment),
    };
    let graduated = graduates(core, token, ledger, policy, escrow_after)?;
    Ok(
        SwapResult {
            base_amount: payment_amount,
            token_amount: tokens_out,
            raw_token_amount: raw,
            commission: split,
            new_x,
            graduated,
        },
    )
}

/// What `buy_exact_output_instruction` returns. The curve prices the tokens; the commission on
/// that price is paid on top of it.
pub open spec fn spec_buy_exact_output_instruction(
    core: XyberCore,
    token: XyberToken,
    ledger: TradeLedger,
    policy: GraduationPolicy,
    tokens_out: u64,
    max_payment: u64,
) -> Result<SwapResult, CustomError> {
    match spec_admission(core, token, ledger) {
        Err(e) => Err(e),
        Ok(_) => match core.bonding_curve.spec_buy_exact_output(ledger.escrow_balance, tokens_out) {
            Err(e) => Err(e),
            Ok((base_required, new_x)) => if base_required > max_payment {
                Err(CustomError::SlippageExceeded)
            } else {
                match spec_raw_tokens(tokens_out, ledger.token_decimals) {
                    Err(e) => Err(e),
                    Ok(raw) => if raw > ledger.vault_balance {
                        Err(CustomError::InsufficientTokenVaultBalance)
                    } else {
                        match spec_commission(base_required, core.commission_rate) {
                            Err(e) => Err(e),
                            Ok(split) => if base_required + commission_total(split) > u64::MAX {
                                Err(CustomError::MathOverflow)
                            } else {
                                let payment = base_required + commission_total(split);
                                match spec_graduates(
                                    core,
                                    token,
                                    ledger,
                                    policy,
                                    escrow_after_buy(
                                        ledger,
                                        policy,
                                        payment,
                                        commission_total(split),
                                    ),
                                ) {
                                    Err(e) => Err(e),
                                    Ok(graduated) => Ok(
                                        SwapResult {
                                            base_amount: payment as u64,
                                            token_amount: tokens_out,
                                            raw_token_amount: raw,
                                            commission: split,
                                            new_x,
                                            graduated,
                                        },
                                    ),
                                }
                            },
                        }
                    },
                }
            },
        },
    }
}

/// Buys an exact number of tokens; fails with `SlippageExceeded` where the curve asks more
/// than `max_payment` for them.
pub fn buy_exact_output_instruction(
    core: &XyberCore,
    token: &XyberToken,
    ledger: &TradeLedger,
    policy: &GraduationPolicy,
    tokens_out: u64,
    max_payment: u64,
) -> (r: Result<SwapResult, CustomError>)
    ensures
        r == spec_buy_exact_output_instruction(
            *core,
            *token,
            *ledger,
            *policy,
            tokens_out,
            max_payment,
        ),
{
    check_admission(core, token, ledger)?;
    let (base_required, new_x) = core.bonding_curve.buy_exact_output(
        ledger.escrow_balance,
        tokens_out,
    )?;
    if base_required > max_payment {
        return Err(CustomError::SlippageExceeded);
    }
    let raw = raw_token_amount(tokens_out, ledger.token_decimals)?;
    if raw > ledger.vault_balance {
        return Err(CustomError::InsufficientTokenVaultBalance);
    }
    let split = commission_split(base_required, core.commission_rate)?;
    let commission: u64 = split.agent_share + split.treasury_share;
    if commission > u64::MAX - base_required {
        return Err(CustomError::MathOverflow);
    }
    let payment: u64 = base_required + commission;
    let escrow_after = match policy.basis {
        GraduationBasis::GrossOfCommission => ledger.escrow_balance.checked_add(payment),
        GraduationBasis::NetOfCommission => ledger.escrow_balance.checked_add(base_required),
    };
    let graduated = graduates(core, token, ledger, policy, escrow_after)?;
    Ok(
        SwapResult {
            base_amount: payment,
            token_amount: tokens_out,
            raw_token_amount: raw,
            commission: split,
            new_x,
            graduated,
        },
    )
}

/// What `sell_exact_input_instruction` returns. The commission comes out of what the curve
/// pays; the trader receives the rest.
pub open spec fn spec_sell_exact_input_instruction(
    core: XyberCore,
    token: XyberToken,
    ledger: TradeLedger,
    user_token_amount: u64,
    min_base_amount_out: u64,
) -> Result<SwapResult, CustomError> {
    match spec_admission(core, token, ledger) {
        Err(e) => Err(e),
        Ok(_) => match spec_raw_tokens(user_token_amount, ledger.token_decimals) {
            Err(e) => Err(e),
            Ok(raw) => match core.bonding_curve.spec_sell_exact_input(
                ledger.escrow_balance,
                user_token_amount,
            ) {
                Err(e) => Err(e),
                Ok((base_out, new_x)) => if base_out < min_base_amount_out {
                    Err(CustomError::SlippageExceeded)
                } else if base_out > ledger.escrow_balance {
                    Err(CustomError::InsufficientEscrowBalance)
                } else {
                    match spec_commission(base_out, core.commission_rate) {
                        Err(e) => Err(e),
                        Ok(split) => if commission_total(split) > base_out {
                            Err(CustomError::MathOverflow)
                        } else {
                            Ok(
                                SwapResult {
                                    base_amount: (base_out - commission_total(split)) as u64,
                                    token_amount: user_token_amount,
                                    raw_token_amount: raw,
                                    commission: split,
                                    new_x,
                                    graduated: false,
                                },
                            )
                        },
                    }
                },
            },
        },
    }
}

/// Sells an exact number of tokens; fails with `SlippageExceeded` where the curve pays less
/// than `min_base_amount_out` for them.
pub fn sell_exact_input_instruction(
    core: &XyberCore,
    token: &XyberToken,
    ledger: &TradeLedger,
    user_token_amount: u64,
    min_base_amount_out: u64,
) -> (r: Result<SwapResult, CustomError>)
    ensures
        r == spec_sell_exact_input_instruction(
            *core,
            *token,
            *ledger,
            user_token_amount,
            min_base_amount_out,
        ),
{
    check_admission(core, token, ledger)?;
    let raw = raw_token_amount(user_token_amount, ledger.token_decimals)?;
    let (base_out, new_x) = core.bonding_curve.sell_exact_input(
        ledger.escrow_balance,
        user_token_amount,
    )?;
    if base_out < min_base_amount_out {
        return Err(CustomError::SlippageExceeded);
    }
    if base_out > ledger.escrow_balance {
        return Err(CustomError::InsufficientEscrowBalance);
    }
    let split = commission_split(base_out, core.commission_rate)?;
    let commission: u64 = split.agent_share + split.treasury_share;
    if commission > base_out {
        return Err(CustomError::MathOverflow);
    }
    Ok(
        SwapResult {
            base_amount: base_out - commission,
            token_amount: user_token_amount,
            raw_token_amount: raw,
            commission: split,
            new_x,
            graduated: false,
        },
    )
}

/// What `sell_exact_output_instruction` returns. The trader receives exactly `base_out`; the
/// commission on it is paid on top, so the curve prices the withdrawal of `base_out` plus the
/// commission, and the escrow must hold that total.
pub open spec fn spec_sell_exact_output_instruction(
    core: XyberCore,
    token: XyberToken,
    ledger: TradeLedger,
    base_out: u64,
    max_tokens_in: u64,
) -> Result<SwapResult, CustomError> {
    match spec_admission(core, token, ledger) {
        Err(e) => Err(e),
        Ok(_) => match spec_commission(base_out, core.commission_rate) {
            Err(e) => Err(e),
            Ok(split) => if base_out + commission_total(split) > u64::MAX {
                Err(CustomError::MathOverflow)
            } else {
                let withdrawn = (base_out + commission_total(split)) as u64;
                match core.bonding_curve.spec_sell_exact_output(ledger.escrow_balance, withdrawn) {
                    Err(e) => Err(e),
                    Ok((tokens_in, new_x)) => if tokens_in > max_tokens_in {
                        Err(CustomError::SlippageExceeded)
                    } else {
                        match spec_raw_tokens(tokens_in, ledger.token_decimals) {
                            Err(e) => Err(e),
                            Ok(raw) => if withdrawn > ledger.escrow_balance {
                                Err(CustomError::InsufficientEscrowBalance)
                            } else {
                                Ok(
                                    SwapResult {
                                        base_amount: base_out,
                                        token_amount: tokens_in,
                                        raw_token_amount: raw,
                                        commission: split,
                                        new_x,
                                        graduated: false,
                                    },
                                )
                            },
                        }
                    },
                }
            },
        },
    }
}

/// Withdraws an exact amount of base asset, the commission on it paid on top; fails with
/// `SlippageExceeded` where the curve burns more than `max_tokens_in` tokens for the total.
pub fn sell_exact_output_instruction(
    core: &XyberCore,
    token: &XyberToken,
    ledger: &TradeLedger,
    base_out: u64,
    max_tokens_in: u64,
) -> (r: Result<SwapResult, CustomError>)
    ensures
        r == spec_sell_exact_output_instruction(*core, *token, *ledger, base_out, max_tokens_in),
{
    check_admission(core, token, ledger)?;
    let split = commission_split(base_out, core.commission_rate)?;
    let commission: u64 = split.agent_share + split.treasury_share;
    if commission > u64::MAX - base_out {
        return Err(CustomError::MathOverflow);
    }
    let withdrawn: u64 = base_out + commission;
    let (tokens_in, new_x) = core.bonding_curve.sell_exact_output(ledger.escrow_balance, withdrawn)?;
    if tokens_in > max_tokens_in {
        return Err(CustomError::SlippageExceeded);
    }
    let raw = raw_token_amount(tokens_in, ledger.token_decimals)?;
    if withdrawn > ledger.escrow_balance {
        return Err(CustomError::InsufficientEscrowBalance);
    }
    Ok(
        SwapResult {
            base_amount: base_out,
            token_amount: tokens_in,
            raw_token_amount: raw,
            commission: split,
            new_x,
            graduated: false,
        },
    )
}

/// The direction and exactness of a trade.
#[derive(Debug, Clone, Copy, PartialEq, Eq, Structural)]
pub enum XyberInstructionType {
    BuyExactIn,
    BuyExactOut,
    SellExactIn,
    SellExactOut,
}

/// One trade request: its kind, the amount the caller fixes, and the slippage bound on the
/// amount the curve computes (a minimum for exact inputs, a maximum for exact outputs).
#[derive(Debug, Clone, Copy, PartialEq, Eq, Structural)]
pub struct SwapRequest {
    pub ix_type: XyberInstructionType,
    pub amount: u64,
    pub bound: u64,
}

/// Executes a trade request through the entry point of its kind.
pub fn execute_swap(
    core: &XyberCore,
    token: &XyberToken,
    ledger: &TradeLedger,
    policy: &GraduationPolicy,
    request: &SwapRequest,
) -> (r: Result<SwapResult, CustomError>)
    ensures
        r == (match request.ix_type {
            XyberInstructionType::BuyExactIn => spec_buy_exact_input_instruction(
                *core,
                *token,
                *ledger,
                *policy,
                request.amount,
                request.bound,
            ),
            XyberInstructionType::BuyExactOut => spec_buy_exact_output_instruction(
                *core,
                *token,
                *ledger,
                *policy,
                request.amount,
                request.bound,
            ),
            XyberInstructionType::SellExactIn => spec_sell_exact_input_instruction(
                *core,
                *token,
                *ledger,
                request.amount,
                request.bound,
            ),
            XyberInstructionType::SellExactOut => spec_sell_exact_output_instruction(
                *core,
                *token,
                *ledger,
                request.amount,
                request.bound,
            ),
        }),
{
    match request.ix_type {
        XyberInstructionType::BuyExactIn => buy_exact_input_instruction(
            core,
            token,
            ledger,
            policy,
            request.amount,
            request.bound,
        ),
        XyberInstructionType::BuyExactOut => buy_exact_output_instruction(
            core,
            token,
            ledger,
            policy,
            request.amount,
            request.bound,
        ),
        XyberInstructionType::SellExactIn => sell_exact_input_instruction(
            core,
            token,
            ledger,
            request.amount,
            request.bound,
        ),
        XyberInstructionType::SellExactOut => sell_exact_output_instruction(
            core,
            token,
            ledger,
            request.amount,
            request.bound,
        ),
    }
}

/// Records a successful trade's graduation decision on the token record. Graduation is a
/// one-way latch: once set, it stays set.
pub fn record_graduation(token: &mut XyberToken, result: &SwapResult)
    ensures
        final(token).is_graduated == (old(token).is_graduated || result.graduated),
        final(token).mint == old(token).mint,
        final(token).vault == old(token).vault,
        final(token).creator == old(token).creator,
        final(token).agent_wallet_pubkey == old(token).agent_wallet_pubkey,
        final(token).total_chains == old(token).total_chains,
{
    if result.graduated {
        token.is_graduated = true;
    }
}

/// A graduated sale is closed: every trade on it fails with `TokenIsGraduated`.
pub proof fn lemma_graduated_sale_is_closed(
    core: XyberCore,
    token: XyberToken,
    ledger: TradeLedger,
    policy: GraduationPolicy,
    amount: u64,
    bound: u64,
)
    requires
        token.is_graduated,
    ensures
        spec_buy_exact_input_instruction(core, token, ledger, policy, amount, bound) == Err::<
            SwapResult,
            CustomError,
        >(CustomError::TokenIsGraduated),
        spec_buy_exact_output_instruction(core, token, ledger, policy, amount, bound) == Err::<
            SwapResult,
            CustomError,
        >(CustomError::TokenIsGraduated),
        spec_sell_exact_input_instruction(core, token, ledger, amount, bound) == Err::<
            SwapResult,
            CustomError,
        >(CustomError::TokenIsGraduated),
        spec_sell_exact_output_instruction(core, token, ledger, amount, bound) == Err::<
            SwapResult,
            CustomError,
        >(CustomError::TokenIsGraduated),
{
}

} // verus!
