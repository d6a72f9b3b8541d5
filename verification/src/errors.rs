//! The error taxonomy shared by every module: validation errors are raised
//! before any state mutation, arithmetic and state errors abort the whole
//! operation. Each function's contract says exactly on which inputs each
//! variant comes.

use vstd::prelude::*;

verus! {

/// Every failure a core operation can surface to its caller.
#[derive(Clone, Copy, Debug, PartialEq, Eq, Structural)]
pub enum DexError {
    /// A rule-of-three result that must be non-zero came out zero.
    ZeroResult,
    /// A token id that does not name an issued standard token.
    NotAnEsdt,
    /// No position tokens were handed to a merge.
    NoTokensToMerge,
    /// A merge input had a zero token amount.
    ZeroEntryAmount,
    /// A merge input was not a farm token of this farm.
    NotAFarmToken,
    /// The farm is not active.
    NotActive,
    /// The farm token has not been issued yet.
    NoFarmToken,
    /// The payment does not match what the endpoint accepts.
    BadPayments,
    /// Farming and reward token must coincide for compounding.
    DifferentTokenIds,
    /// The reward reserve cannot cover the computed reward.
    InsufficientReserve,
    /// The requested round is outside the retained price history.
    ObservationDoesNotExist,
    /// The input token matches neither side of the pair.
    BadInputToken,
    /// An output amount that must be positive came out zero.
    ZeroAmount,
    /// A round interval with its end before its start.
    InvalidParameters,
    /// The payment token is not accepted here.
    InvalidPaymentToken,
    /// The lock period is not one of the listed options.
    InvalidLockChoice,
    /// The lock has not expired yet.
    CannotUnlockYet,
    /// An extended lock must end later than the current one.
    NewLockPeriodNotLonger,
    /// The launched token price fell below the configured minimum.
    BelowMinPrice,
    /// No launched tokens have been deposited yet.
    NoLaunchedTokens,
    /// The launched and the accepted token must differ.
    TokensMustDiffer,
    /// The sale cannot start in the past.
    StartBlockInPast,
    /// The minimum penalty percentage exceeds the maximum.
    MinPercentageAboveMax,
    /// A penalty percentage at or above one hundred percent.
    PercentageTooHigh,
    /// The current phase accepts no deposits.
    DepositNotAllowed,
    /// The current phase accepts no withdrawals.
    WithdrawNotAllowed,
    /// The current phase accepts no redeems.
    RedeemNotAllowed,
    /// The token is not an accepted locked asset.
    NotAcceptedLockedAsset,
    /// The recorded funds for the transaction have the wrong size.
    BadReceivedFundsSize,
    /// A validated chunk asked for more than was received.
    NotEnoughFunds,
    /// No funds of the requested kind were received.
    NoFundsOfThisType,
    /// Funds were received beyond what the chunk accounts for.
    MoreFundsReceived,
    /// The two tokens of a new pair must differ.
    IdenticalTokens,
    /// A pair for these tokens already exists.
    PairAlreadyExists,
    /// The address is not a pair contract of this router.
    NotAPairContract,
    /// No farm is whitelisted for the token and type pair.
    NoFarmForTokenAndType,
    /// The endpoint expects a non-zero payment.
    NoPayment,
    /// Only fungible (nonce zero) locked tokens are accepted.
    OnlyFungibleTokens,
    /// The user's claim progress is behind the current week.
    ClaimProgressNotUpToDate,
    /// Only a smart contract address may be whitelisted.
    InvalidScAddress,
    /// The farm handed back tokens of an unexpected kind.
    InvalidPaymentsFromFarm,
    /// Only the owner may do this.
    PermissionDenied,
    /// Pairs are made of issued standard tokens only.
    OnlyEsdtTokens,
    /// The maximum annual percentage must be positive.
    InvalidMaxApr,
    /// The unbond window is longer than allowed.
    InvalidMinUnbondEpochs,
    /// Only a ledger query may call this.
    OnlyVmQuery,
    /// The first payment must be a liquidity-farm position.
    InvalidFirstPayment,
    /// Unstaking takes the whole position as payment.
    MustExitWithFullPosition,
    /// The exit amount must be a non-empty part of the position.
    InvalidExitAmount,
    /// Rewards cannot be claimed while the collector is paused.
    CannotClaimWhilePaused,
    /// Energy may only be recomputed while the collector is paused.
    OnlyRecomputeWhilePaused,
}

impl DexError {
    /// The human-readable message the contract reverts with.
    pub fn message(&self) -> String {
        match self {
            DexError::ZeroResult => "Rule of three result is zero".to_string(),
            DexError::NotAnEsdt => "Not a valid esdt id".to_string(),
            DexError::NoTokensToMerge => "No tokens to merge".to_string(),
            DexError::ZeroEntryAmount => "zero entry amount".to_string(),
            DexError::NotAFarmToken => "Not a farm token".to_string(),
            DexError::NotActive => "Not active".to_string(),
            DexError::NoFarmToken => "No farm token".to_string(),
            DexError::BadPayments => "Bad payments".to_string(),
            DexError::DifferentTokenIds => "Different token ids".to_string(),
            DexError::InsufficientReserve => "Insufficient reserve".to_string(),
            DexError::ObservationDoesNotExist => "Price observation does not exist".to_string(),
            DexError::BadInputToken => "Bad input token".to_string(),
            DexError::ZeroAmount => "Zero amount".to_string(),
            DexError::InvalidParameters => "Invalid parameters".to_string(),
            DexError::InvalidPaymentToken => "Invalid payment token".to_string(),
            DexError::InvalidLockChoice => "Invalid lock choice".to_string(),
            DexError::CannotUnlockYet => "Cannot unlock yet".to_string(),
            DexError::NewLockPeriodNotLonger => {
                "New lock period must be longer than the current one".to_string()
            },
            DexError::BelowMinPrice => "Launched token below min price".to_string(),
            DexError::NoLaunchedTokens => "No launched tokens available".to_string(),
            DexError::TokensMustDiffer => {
                "Launched and accepted token must be different".to_string()
            },
            DexError::StartBlockInPast => "Start block cannot be in the past".to_string(),
            DexError::MinPercentageAboveMax => {
                "Min percentage higher than max percentage".to_string()
            },
            DexError::PercentageTooHigh => "Percentage higher than 100%".to_string(),
            DexError::DepositNotAllowed => "Deposit not allowed in this phase".to_string(),
            DexError::WithdrawNotAllowed => "Withdraw not allowed in this phase".to_string(),
            DexError::RedeemNotAllowed => "Redeem not allowed in this phase".to_string(),
            DexError::NotAcceptedLockedAsset => "Not an accepted locked asset".to_string(),
            DexError::BadReceivedFundsSize => "Bad received funds size".to_string(),
            DexError::NotEnoughFunds => "Available amount is not enough".to_string(),
            DexError::NoFundsOfThisType => "No available funds of this type".to_string(),
            DexError::MoreFundsReceived => "More funds were received".to_string(),
            DexError::IdenticalTokens => "Identical tokens".to_string(),
            DexError::PairAlreadyExists => "Pair already existent".to_string(),
            DexError::NotAPairContract => "Not a pair SC".to_string(),
            DexError::NoFarmForTokenAndType => {
                "No farm address for the specified token and type pair".to_string()
            },
            DexError::NoPayment => "No payment".to_string(),
            DexError::OnlyFungibleTokens => "Only fungible tokens are allowed".to_string(),
            DexError::ClaimProgressNotUpToDate => {
                "The user claim progress must be up to date.".to_string()
            },
            DexError::InvalidScAddress => "Invalid SC address".to_string(),
            DexError::InvalidPaymentsFromFarm => {
                "Invalid payments received from farm".to_string()
            },
            DexError::PermissionDenied => "Permission denied".to_string(),
            DexError::OnlyEsdtTokens => "Only esdt tokens allowed".to_string(),
            DexError::InvalidMaxApr => "Invalid max APR percentage".to_string(),
            DexError::InvalidMinUnbondEpochs => "Invalid min unbond epochs".to_string(),
            DexError::OnlyVmQuery => {
                "May only call this function through VM query".to_string()
            },
            DexError::InvalidFirstPayment => "Invalid first payment".to_string(),
            DexError::MustExitWithFullPosition => {
                "Must exit with full position as payment".to_string()
            },
            DexError::InvalidExitAmount => "Invalid exit amount".to_string(),
            DexError::CannotClaimWhilePaused => "Cannot claim while paused".to_string(),
            DexError::OnlyRecomputeWhilePaused => {
                "May only recompute while paused".to_string()
            },
        }
    }
}

} // verus!
