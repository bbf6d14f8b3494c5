use bull_bear_program::errors::BullBearProgramError;
use bull_bear_program::market::Market;
use bull_bear_program::oracle::PriceObservation;
use bull_bear_program::{
    close_betting_phase, end_current_round, initialize, initialize_new_game,
    initialize_new_round, start_current_round,
};

const FEED: &str = "0123456789abcdef0123456789abcdef0123456789abcdef0123456789abcdef";
const AUTHORITY: u64 = 1;
const TOKEN: u64 = 7;

fn market_with_interval(interval: u64) -> Market {
    let protocol = initialize(99, 0);
    let mut m = initialize_new_game(&protocol, AUTHORITY, 0, interval, FEED, TOKEN).unwrap().0;
    initialize_new_round(&mut m, AUTHORITY).unwrap();
    m
}

fn obs(price: i64, publish_time: i64) -> PriceObservation {
    PriceObservation { price, publish_time }
}

#[test]
fn betting_closes_exactly_at_the_halfway_point() {
    let mut m = market_with_interval(600);
    start_current_round(&mut m, AUTHORITY, 1000, &obs(100, 990)).unwrap();
    // Half the interval elapses at 1000 + 300.
    assert_eq!(
        close_betting_phase(&mut m, AUTHORITY, 1299),
        Err(BullBearProgramError::BettingPhaseNotEnded)
    );
    assert_eq!(close_betting_phase(&mut m, AUTHORITY, 1300), Ok(()));
}

#[test]
fn betting_window_halves_an_odd_interval_rounding_down() {
    let mut m = market_with_interval(601);
    start_current_round(&mut m, AUTHORITY, 1000, &obs(100, 990)).unwrap();
    assert_eq!(
        close_betting_phase(&mut m, AUTHORITY, 1299),
        Err(BullBearProgramError::BettingPhaseNotEnded)
    );
    assert_eq!(close_betting_phase(&mut m, AUTHORITY, 1300), Ok(()));
}

#[test]
fn a_round_ends_exactly_at_its_end_time() {
    let mut m = market_with_interval(600);
    start_current_round(&mut m, AUTHORITY, 1000, &obs(100, 990)).unwrap();
    close_betting_phase(&mut m, AUTHORITY, 1300).unwrap();
    assert_eq!(
        end_current_round(&mut m, AUTHORITY, TOKEN, 1599, &obs(101, 1599)),
        Err(BullBearProgramError::BettingPhaseNotEnded)
    );
    assert_eq!(end_current_round(&mut m, AUTHORITY, TOKEN, 1600, &obs(101, 1599)), Ok(()));
}

#[test]
fn starting_rejects_an_observation_older_than_the_interval() {
    // With an interval of 600 the permitted age is 600 seconds.
    let mut m = market_with_interval(600);
    assert_eq!(
        start_current_round(&mut m, AUTHORITY, 1000, &obs(100, 399)),
        Err(BullBearProgramError::OracleFailure)
    );
    assert_eq!(start_current_round(&mut m, AUTHORITY, 1000, &obs(100, 400)), Ok(()));
}

#[test]
fn starting_never_applies_a_bound_tighter_than_the_floor() {
    // With a 10-second interval the default 60-second floor applies.
    let mut m = market_with_interval(10);
    assert_eq!(
        start_current_round(&mut m, AUTHORITY, 1000, &obs(100, 939)),
        Err(BullBearProgramError::OracleFailure)
    );
    assert_eq!(start_current_round(&mut m, AUTHORITY, 1000, &obs(100, 940)), Ok(()));
}

#[test]
fn ending_rejects_an_observation_older_than_the_floor() {
    let mut m = market_with_interval(600);
    start_current_round(&mut m, AUTHORITY, 1000, &obs(100, 990)).unwrap();
    close_betting_phase(&mut m, AUTHORITY, 1300).unwrap();
    // The default bound is 60 seconds, whatever the interval.
    assert_eq!(
        end_current_round(&mut m, AUTHORITY, TOKEN, 1700, &obs(101, 1639)),
        Err(BullBearProgramError::OracleFailure)
    );
    assert_eq!(end_current_round(&mut m, AUTHORITY, TOKEN, 1700, &obs(101, 1640)), Ok(()));
}
