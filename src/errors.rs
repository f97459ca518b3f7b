use vstd::prelude::*;

verus! {

/// Every way a trade or a curve computation can be rejected.
#[derive(Debug, Clone, Copy, PartialEq, Eq, Structural)]
pub enum CustomError {
    /// A sell would remove more issued tokens than exist, or a buy would push the issued supply
    /// to or past the asymptote.
    InsufficientTokenSupply,
    /// A checked arithmetic step overflowed, underflowed or divided by zero.
    MathOverflow,
    /// The caller is not allowed to perform the action.
    Unauthorized,
    /// The pool has not reached its graduation threshold.
    BondingCurveNotGraduated,
    /// The token vault holds fewer tokens than the trade pays out.
    InsufficientTokenVaultBalance,
    /// The escrow holds less base asset than the trade pays out.
    InsufficientEscrowBalance,
    /// The sale has graduated; its curve no longer trades.
    TokenIsGraduated,
    /// A token seed was not exactly 32 bytes long.
    InvalidSeed,
    /// The computed counter-amount violates the caller's bound.
    SlippageExceeded,
    /// The payment asset is not the one the sale accepts.
    WrongPaymentMint,
    /// The agent's payment account is not the expected one.
    InvalidAgentTokenAccount,
    /// The treasury's payment account is not the expected one.
    InvalidTreasuryTokenAccount,
    /// New curve parameters break the curve's invariant `A > 0`, `K > 0`.
    InvalidCurveParameters,
}

} // verus!
