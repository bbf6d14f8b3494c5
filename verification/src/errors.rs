use vstd::prelude::*;

verus! {

/// Error codes of the prediction-market engine.
///
/// Every rejected precondition surfaces a distinct, stable code so that
/// callers can assert on the cause of a failure, not just on failure itself.
/// The codes fall into a few families: authorization (`SignerNotAuthorized`),
/// state violations (`RoundNotActive`, `BettingIsClosed`,
/// `BettingNeedsToBeClosed`, `RoundAlreadyStarted`, `CurrentRoundNotEnded`,
/// `NoPrizeClaimable`, `PrizeAlreadyClaimed`), temporal gates
/// (`BettingPhaseNotEnded`), resource exhaustion
/// (`MaximumBetAmountReached`), escrow failures (`EscrowFailure`),
/// oracle failures (`OracleFailure`), invalid input (`InvalidPrediction`,
/// `InvalidFeedId`, `InvalidMintAccount`), and duplicate or missing records
/// (`DuplicateBet`, `RoundAlreadyCreated`, `RoundNotFound`, `BetNotFound`),
/// which the storage layer of the host ledger reports in the deployed
/// setting.
#[derive(Clone, Copy, Debug, PartialEq, Eq, Structural)]
pub enum BullBearProgramError {
    SignerNotAuthorized,
    CurrentRoundNotEnded,
    RoundNotActive,
    BettingIsClosed,
    BettingPhaseNotEnded,
    BettingNeedsToBeClosed,
    RoundAlreadyStarted,
    NoPrizeClaimable,
    PrizeAlreadyClaimed,
    InvalidPrediction,
    MaximumBetAmountReached,
    NothingToWithdraw,
    InvalidMintAccount,
    InvalidFeedId,
    OracleFailure,
    EscrowFailure,
    DuplicateBet,
    RoundAlreadyCreated,
    RoundNotFound,
    BetNotFound,
}

impl BullBearProgramError {
    /// A short, stable description of the error code.
    pub fn message(&self) -> String {
        match self {
            BullBearProgramError::SignerNotAuthorized => "Signer is not authorized.".to_owned(),
            BullBearProgramError::CurrentRoundNotEnded => "Current round has not ended.".to_owned(),
            BullBearProgramError::RoundNotActive => "Round is not active.".to_owned(),
            BullBearProgramError::BettingIsClosed => "Betting is closed.".to_owned(),
            BullBearProgramError::BettingPhaseNotEnded => "Betting phase cannot be closed yet.".to_owned(),
            BullBearProgramError::BettingNeedsToBeClosed => "Betting needs to be closed.".to_owned(),
            BullBearProgramError::RoundAlreadyStarted => "Round already started.".to_owned(),
            BullBearProgramError::NoPrizeClaimable => "No prize claimable.".to_owned(),
            BullBearProgramError::PrizeAlreadyClaimed => "Prize already claimed.".to_owned(),
            BullBearProgramError::InvalidPrediction => "Invalid prediction.".to_owned(),
            BullBearProgramError::MaximumBetAmountReached => "Maximum bet amount reached.".to_owned(),
            BullBearProgramError::NothingToWithdraw => "Nothing to withdraw.".to_owned(),
            BullBearProgramError::InvalidMintAccount => "The provided mint account does not match the expected token address.".to_owned(),
            BullBearProgramError::InvalidFeedId => "The provided feed id is not a 32-byte hex string.".to_owned(),
            BullBearProgramError::OracleFailure => "The price observation is stale or unusable.".to_owned(),
            BullBearProgramError::EscrowFailure => "The escrow transfer could not be performed.".to_owned(),
            BullBearProgramError::DuplicateBet => "A bet for this player and round already exists.".to_owned(),
            BullBearProgramError::RoundAlreadyCreated => "A round for the current counter already exists.".to_owned(),
            BullBearProgramError::RoundNotFound => "The addressed round does not exist.".to_owned(),
            BullBearProgramError::BetNotFound => "No bet for this player and round exists.".to_owned(),
        }
    }
}

} // verus!
