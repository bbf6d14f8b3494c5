use bull_bear_program::errors::BullBearProgramError;
use bull_bear_program::market::Market;
use bull_bear_program::oracle::PriceObservation;
use bull_bear_program::states::PriceMovement;
use bull_bear_program::{
    claim_unclaimed_prize, close_betting_phase, end_current_round, initialize,
    initialize_new_game, initialize_new_round, place_new_bet, start_current_round,
    update_round_interval, withdraw_game_funds,
};

const FEED: &str = "0123456789abcdef0123456789abcdef0123456789abcdef0123456789abcdef";
const AUTHORITY: u64 = 1;
const TOKEN: u64 = 7;
const INTERVAL: u64 = 600;

fn setup_market() -> Market {
    let protocol = initialize(99, 50);
    initialize_new_game(&protocol, AUTHORITY, 100, INTERVAL, FEED, TOKEN).unwrap().0
}

fn open_market() -> Market {
    let mut m = setup_market();
    initialize_new_round(&mut m, AUTHORITY).unwrap();
    start_current_round(&mut m, AUTHORITY, 1000, &obs(100, 990)).unwrap();
    m
}

fn obs(price: i64, publish_time: i64) -> PriceObservation {
    PriceObservation { price, publish_time }
}

#[test]
fn game_creation_fails_without_fee_coverage() {
    let protocol = initialize(99, 50);
    assert_eq!(
        initialize_new_game(&protocol, AUTHORITY, 49, INTERVAL, FEED, TOKEN).err(),
        Some(BullBearProgramError::EscrowFailure)
    );
}

#[test]
fn game_creation_fails_on_bad_feed() {
    let protocol = initialize(99, 50);
    assert_eq!(
        initialize_new_game(&protocol, AUTHORITY, 100, INTERVAL, "abc", TOKEN).err(),
        Some(BullBearProgramError::InvalidFeedId)
    );
}

#[test]
fn only_the_game_authority_may_operate() {
    let mut m = setup_market();
    let stranger: u64 = 66;
    assert_eq!(
        initialize_new_round(&mut m, stranger),
        Err(BullBearProgramError::SignerNotAuthorized)
    );
    assert_eq!(
        update_round_interval(&mut m, stranger, 100),
        Err(BullBearProgramError::SignerNotAuthorized)
    );
    assert_eq!(
        withdraw_game_funds(&mut m, stranger, TOKEN),
        Err(BullBearProgramError::SignerNotAuthorized)
    );
    initialize_new_round(&mut m, AUTHORITY).unwrap();
    assert_eq!(
        start_current_round(&mut m, stranger, 1000, &obs(100, 990)),
        Err(BullBearProgramError::SignerNotAuthorized)
    );
    start_current_round(&mut m, AUTHORITY, 1000, &obs(100, 990)).unwrap();
    assert_eq!(
        close_betting_phase(&mut m, stranger, 1300),
        Err(BullBearProgramError::SignerNotAuthorized)
    );
    close_betting_phase(&mut m, AUTHORITY, 1300).unwrap();
    assert_eq!(
        end_current_round(&mut m, stranger, TOKEN, 1600, &obs(101, 1590)),
        Err(BullBearProgramError::SignerNotAuthorized)
    );
}

#[test]
fn operations_need_the_created_round() {
    let mut m = setup_market();
    assert_eq!(
        start_current_round(&mut m, AUTHORITY, 1000, &obs(100, 990)),
        Err(BullBearProgramError::RoundNotFound)
    );
    assert_eq!(
        place_new_bet(&mut m, 2, TOKEN, PriceMovement::Up, 10, 10),
        Err(BullBearProgramError::RoundNotFound)
    );
    assert_eq!(
        close_betting_phase(&mut m, AUTHORITY, 1300),
        Err(BullBearProgramError::RoundNotFound)
    );
    assert_eq!(
        end_current_round(&mut m, AUTHORITY, TOKEN, 1600, &obs(101, 1590)),
        Err(BullBearProgramError::RoundNotFound)
    );
    assert_eq!(
        claim_unclaimed_prize(&mut m, 2, TOKEN, 0),
        Err(BullBearProgramError::RoundNotFound)
    );
}

#[test]
fn the_current_round_slot_is_created_once() {
    let mut m = setup_market();
    initialize_new_round(&mut m, AUTHORITY).unwrap();
    assert_eq!(
        initialize_new_round(&mut m, AUTHORITY),
        Err(BullBearProgramError::RoundAlreadyCreated)
    );
}

#[test]
fn a_round_starts_once() {
    let mut m = setup_market();
    initialize_new_round(&mut m, AUTHORITY).unwrap();
    start_current_round(&mut m, AUTHORITY, 1000, &obs(100, 990)).unwrap();
    assert_eq!(
        start_current_round(&mut m, AUTHORITY, 1100, &obs(105, 1090)),
        Err(BullBearProgramError::RoundAlreadyStarted)
    );
}

#[test]
fn betting_needs_an_active_open_round() {
    let mut m = setup_market();
    initialize_new_round(&mut m, AUTHORITY).unwrap();
    // Created but not started: the round is inactive.
    assert_eq!(
        place_new_bet(&mut m, 2, TOKEN, PriceMovement::Up, 10, 10),
        Err(BullBearProgramError::RoundNotActive)
    );
    assert_eq!(
        close_betting_phase(&mut m, AUTHORITY, 1300),
        Err(BullBearProgramError::RoundNotActive)
    );
    assert_eq!(
        end_current_round(&mut m, AUTHORITY, TOKEN, 1600, &obs(101, 1590)),
        Err(BullBearProgramError::RoundNotActive)
    );
    start_current_round(&mut m, AUTHORITY, 1000, &obs(100, 990)).unwrap();
    assert_eq!(
        end_current_round(&mut m, AUTHORITY, TOKEN, 1600, &obs(101, 1590)),
        Err(BullBearProgramError::BettingNeedsToBeClosed)
    );
    close_betting_phase(&mut m, AUTHORITY, 1300).unwrap();
    assert_eq!(
        place_new_bet(&mut m, 2, TOKEN, PriceMovement::Up, 10, 10),
        Err(BullBearProgramError::BettingIsClosed)
    );
    assert_eq!(
        close_betting_phase(&mut m, AUTHORITY, 1400),
        Err(BullBearProgramError::BettingIsClosed)
    );
}

#[test]
fn predictions_must_be_up_or_down() {
    let mut m = open_market();
    assert_eq!(
        place_new_bet(&mut m, 2, TOKEN, PriceMovement::Unset, 10, 10),
        Err(BullBearProgramError::InvalidPrediction)
    );
    assert_eq!(
        place_new_bet(&mut m, 2, TOKEN, PriceMovement::NoChange, 10, 10),
        Err(BullBearProgramError::InvalidPrediction)
    );
}

#[test]
fn duplicate_bet_is_rejected_and_changes_nothing() {
    let mut m = open_market();
    assert_eq!(place_new_bet(&mut m, 2, TOKEN, PriceMovement::Up, 100, 500), Ok(400));
    let first = m.bets[0];
    let round_before = m.rounds[0];
    assert_eq!(
        place_new_bet(&mut m, 2, TOKEN, PriceMovement::Down, 50, 400),
        Err(BullBearProgramError::DuplicateBet)
    );
    assert_eq!(m.bets.len(), 1);
    assert_eq!(m.bets[0], first);
    assert_eq!(m.rounds[0], round_before);
}

#[test]
fn stake_aggregation_overflow_is_rejected() {
    let mut m = open_market();
    assert_eq!(
        place_new_bet(&mut m, 2, TOKEN, PriceMovement::Up, u64::MAX, u64::MAX),
        Ok(0)
    );
    assert_eq!(
        place_new_bet(&mut m, 3, TOKEN, PriceMovement::Up, 1, 1),
        Err(BullBearProgramError::MaximumBetAmountReached)
    );
    // The other side's total still fits, but the round vault cannot hold
    // one more unit: the escrow transfer is what fails.
    assert_eq!(
        place_new_bet(&mut m, 3, TOKEN, PriceMovement::Down, 1, 1),
        Err(BullBearProgramError::EscrowFailure)
    );
}

#[test]
fn stakes_need_a_covering_balance() {
    let mut m = open_market();
    assert_eq!(
        place_new_bet(&mut m, 2, TOKEN, PriceMovement::Up, 100, 99),
        Err(BullBearProgramError::EscrowFailure)
    );
}

#[test]
fn fund_moves_check_the_token() {
    let mut m = open_market();
    let wrong: u64 = TOKEN + 1;
    assert_eq!(
        place_new_bet(&mut m, 2, wrong, PriceMovement::Up, 10, 10),
        Err(BullBearProgramError::InvalidMintAccount)
    );
    assert_eq!(
        withdraw_game_funds(&mut m, AUTHORITY, wrong),
        Err(BullBearProgramError::InvalidMintAccount)
    );
    place_new_bet(&mut m, 2, TOKEN, PriceMovement::Up, 10, 10).unwrap();
    close_betting_phase(&mut m, AUTHORITY, 1300).unwrap();
    assert_eq!(
        end_current_round(&mut m, AUTHORITY, wrong, 1600, &obs(101, 1590)),
        Err(BullBearProgramError::InvalidMintAccount)
    );
    end_current_round(&mut m, AUTHORITY, TOKEN, 1600, &obs(101, 1590)).unwrap();
    assert_eq!(
        claim_unclaimed_prize(&mut m, 2, wrong, 0),
        Err(BullBearProgramError::InvalidMintAccount)
    );
}

#[test]
fn claims_are_gated_by_round_state_and_ownership() {
    let mut m = open_market();
    place_new_bet(&mut m, 2, TOKEN, PriceMovement::Up, 100, 100).unwrap();
    place_new_bet(&mut m, 3, TOKEN, PriceMovement::Down, 100, 100).unwrap();
    // Nobody can claim while the round runs.
    assert_eq!(
        claim_unclaimed_prize(&mut m, 2, TOKEN, 0),
        Err(BullBearProgramError::CurrentRoundNotEnded)
    );
    close_betting_phase(&mut m, AUTHORITY, 1300).unwrap();
    end_current_round(&mut m, AUTHORITY, TOKEN, 1600, &obs(101, 1590)).unwrap();
    // A player without a bet has nothing to claim.
    assert_eq!(
        claim_unclaimed_prize(&mut m, 55, TOKEN, 0),
        Err(BullBearProgramError::BetNotFound)
    );
    // The losing side has no claim.
    assert_eq!(
        claim_unclaimed_prize(&mut m, 3, TOKEN, 0),
        Err(BullBearProgramError::NoPrizeClaimable)
    );
}

#[test]
fn no_double_claim_and_vault_untouched_by_the_second_try() {
    let mut m = open_market();
    place_new_bet(&mut m, 2, TOKEN, PriceMovement::Up, 100, 100).unwrap();
    place_new_bet(&mut m, 3, TOKEN, PriceMovement::Down, 100, 100).unwrap();
    close_betting_phase(&mut m, AUTHORITY, 1300).unwrap();
    end_current_round(&mut m, AUTHORITY, TOKEN, 1600, &obs(101, 1590)).unwrap();
    assert_eq!(claim_unclaimed_prize(&mut m, 2, TOKEN, 0), Ok(200));
    let vault_after_first = m.rounds[0].vault;
    assert_eq!(
        claim_unclaimed_prize(&mut m, 2, TOKEN, 0),
        Err(BullBearProgramError::PrizeAlreadyClaimed)
    );
    assert_eq!(m.rounds[0].vault, vault_after_first);
}

#[test]
fn no_change_round_refunds_and_leaves_nothing_claimable() {
    let mut m = open_market();
    place_new_bet(&mut m, 2, TOKEN, PriceMovement::Up, 100, 100).unwrap();
    place_new_bet(&mut m, 3, TOKEN, PriceMovement::Down, 300, 300).unwrap();
    close_betting_phase(&mut m, AUTHORITY, 1300).unwrap();
    // The end price equals the start price: the whole round vault moves
    // back to the game vault.
    end_current_round(&mut m, AUTHORITY, TOKEN, 1600, &obs(100, 1590)).unwrap();
    assert_eq!(m.rounds[0].result, PriceMovement::NoChange);
    assert_eq!(m.rounds[0].vault, 0);
    assert_eq!(m.game.vault, 400);
    assert_eq!(
        claim_unclaimed_prize(&mut m, 2, TOKEN, 0),
        Err(BullBearProgramError::NoPrizeClaimable)
    );
    assert_eq!(
        claim_unclaimed_prize(&mut m, 3, TOKEN, 0),
        Err(BullBearProgramError::NoPrizeClaimable)
    );
}
