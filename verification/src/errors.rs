//! The protocol's error codes.

use vstd::prelude::*;

verus! {

/// Every way an instruction can be refused. The program reports them with
/// codes 6000, 6001, ... in the order below.
#[derive(Clone, Copy, Debug, PartialEq, Eq)]
pub enum FateSwapError {
    /// Protocol is paused
    Paused,
    /// Amount cannot be zero
    ZeroAmount,
    /// Deposit too small
    DepositTooSmall,
    /// Withdrawal too small
    WithdrawTooSmall,
    /// Insufficient liquidity
    InsufficientLiquidity,
    /// Math overflow
    MathOverflow,
    /// Invalid configuration
    InvalidConfig,
    /// Invalid multiplier
    InvalidMultiplier,
    /// Nonce mismatch
    NonceMismatch,
    /// No commitment
    NoCommitment,
    /// Active order exists
    ActiveOrderExists,
    /// Bet too small
    BetTooSmall,
    /// Bet too large
    BetTooLarge,
    /// Insufficient vault balance
    InsufficientVaultBalance,
    /// Order not pending
    OrderNotPending,
    /// Order expired
    OrderExpired,
    /// Order not expired
    OrderNotExpired,
    /// Unauthorized settler
    UnauthorizedSettler,
    /// Invalid player
    InvalidPlayer,
    /// Invalid server seed
    InvalidServerSeed,
    /// Invalid referrer
    InvalidReferrer,
    /// Self referral not allowed
    SelfReferral,
    /// Referrer already set
    ReferrerAlreadySet,
    /// Invalid NFT rewarder
    InvalidNFTRewarder,
    /// Invalid platform wallet
    InvalidPlatformWallet,
    /// Invalid bonus wallet
    InvalidBonusWallet,
}

} // verus!
