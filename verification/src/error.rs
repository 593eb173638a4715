//! Typed failures. Every failure aborts the whole attempted operation; no
//! operation commits a partial result.

use vstd::prelude::*;

verus! {

/// Failure of an admin-gated call.
#[derive(Clone, Copy, Debug, PartialEq, Eq, Structural)]
pub enum AdminError {
    /// The caller is not the current admin.
    NotAdmin,
}

/// Failures of the vault's operations.
#[derive(Clone, Debug, PartialEq, Eq)]
pub enum LunaVaultError {
    /// Caller is not allowed to perform the operation.
    Unauthorized,
    /// An admin-gated call failed.
    Admin(AdminError),
    /// The attached funds do not match the claimed deposit.
    InvalidDeposit,
    /// A deposit or unbond arrived while a flash loan is in flight.
    DepositDuringLoan,
    /// The undelegation amount resolved to the minimal indivisible unit.
    TooSmallBurn,
    /// Nothing is withdrawable in the given denomination.
    NoWithdrawableAssetsAvailable(String),
    /// The contract is already on the whitelist.
    AlreadyWhitelisted,
    /// The whitelist is at capacity.
    WhitelistLimitReached,
    /// The contract is not on the whitelist.
    NotWhitelisted,
    /// The vault cannot cover the requested loan plus the tax buffer.
    Broke,
    /// A snapshot is still outstanding from an earlier loan.
    Nonzero,
    /// Post-loan valuation fell short; the whole transaction is rolled back.
    CancelLosingTrade,
    /// A callback arrived from anyone but the vault itself.
    NotCallback,
    /// A fee share above one was supplied.
    InvalidFee,
    /// A subtraction underflowed where the design asserts it cannot.
    ArithmeticInvariantViolation,
}

/// Failures of the community fund's operations.
#[derive(Clone, Copy, Debug, PartialEq, Eq, Structural)]
pub enum CommunityFundError {
    Admin(AdminError),
    /// More than one coin was attached to a deposit.
    WrongDepositTooManyTokens,
    /// The attached coin is not the fund's token.
    WrongDepositToken,
}

/// Failures of the arbitrage strategy's operations.
#[derive(Clone, Copy, Debug, PartialEq, Eq, Structural)]
pub enum StableArbError {
    /// Caller is not the vault.
    Unauthorized,
    Admin(AdminError),
    /// The requested asset is not the strategy's base asset.
    InvalidDeposit,
    /// The strategy does not hold the lent funds.
    Broke,
    /// A callback arrived from anyone but the strategy itself.
    NotCallback,
}

/// Failures of the treasury-module base commands.
#[derive(Clone, Copy, Debug, PartialEq, Eq, Structural)]
pub enum BaseDAppError {
    Admin(AdminError),
    /// Caller is neither admin nor trader.
    Unauthorized,
    /// The named entry is not in the address book.
    NotFound,
}

} // verus!
