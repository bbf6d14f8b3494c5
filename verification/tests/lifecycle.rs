use bull_bear_program::errors::BullBearProgramError;
use bull_bear_program::market::Market;
use bull_bear_program::oracle::PriceObservation;
use bull_bear_program::states::{BettingStatus, PriceMovement, RoundStatus};
use bull_bear_program::{
    claim_unclaimed_prize, close_betting_phase, end_current_round, initialize,
    initialize_new_game, initialize_new_round, place_new_bet, start_current_round,
    update_round_interval, withdraw_game_funds,
};

const FEED: &str = "0123456789abcdef0123456789abcdef0123456789abcdef0123456789abcdef";
const AUTHORITY: u64 = 1;
const TOKEN: u64 = 7;
const INTERVAL: u64 = 600;

fn setup_market() -> Market {
    let protocol = initialize(99, 50);
    let (market, change) = initialize_new_game(&protocol, AUTHORITY, 100, INTERVAL, FEED, TOKEN)
        .expect("game creation should succeed");
    assert_eq!(change, 50);
    market
}

fn obs(price: i64, publish_time: i64) -> PriceObservation {
    PriceObservation { price, publish_time }
}

#[test]
fn game_starts_empty() {
    let m = setup_market();
    assert_eq!(m.game.counter, 0);
    assert_eq!(m.game.round_interval, INTERVAL);
    assert_eq!(m.game.token, TOKEN);
    assert_eq!(m.game.vault, 0);
    assert_eq!(m.rounds.len(), 0);
    assert_eq!(m.bets.len(), 0);
    assert_eq!(m.game.feed_id.len(), 32);
}

#[test]
fn full_round_lifecycle_up() {
    let mut m = setup_market();
    assert_eq!(initialize_new_round(&mut m, AUTHORITY), Ok(()));
    assert_eq!(m.rounds.len(), 1);
    assert_eq!(m.rounds[0].round_nr, 0);
    assert_eq!(m.rounds[0].status, RoundStatus::Inactive);
    assert_eq!(m.rounds[0].betting, BettingStatus::Closed);

    assert_eq!(start_current_round(&mut m, AUTHORITY, 1000, &obs(100, 990)), Ok(()));
    assert_eq!(m.rounds[0].status, RoundStatus::Active);
    assert_eq!(m.rounds[0].betting, BettingStatus::Open);
    assert_eq!(m.rounds[0].start_time, 1000);
    assert_eq!(m.rounds[0].end_time, 1600);
    assert_eq!(m.rounds[0].start_price, 100);

    // Three players stake; totals become 300 up, 700 down.
    assert_eq!(place_new_bet(&mut m, 2, TOKEN, PriceMovement::Up, 100, 1000), Ok(900));
    assert_eq!(place_new_bet(&mut m, 3, TOKEN, PriceMovement::Up, 200, 200), Ok(0));
    assert_eq!(place_new_bet(&mut m, 4, TOKEN, PriceMovement::Down, 700, 701), Ok(1));
    assert_eq!(m.rounds[0].total_up, 300);
    assert_eq!(m.rounds[0].total_down, 700);
    assert_eq!(m.rounds[0].num_bets, 3);
    assert_eq!(m.rounds[0].vault, 1000);

    assert_eq!(close_betting_phase(&mut m, AUTHORITY, 1300), Ok(()));
    assert_eq!(m.rounds[0].betting, BettingStatus::Closed);

    assert_eq!(end_current_round(&mut m, AUTHORITY, TOKEN, 1600, &obs(150, 1590)), Ok(()));
    assert_eq!(m.rounds[0].status, RoundStatus::Ended);
    assert_eq!(m.rounds[0].result, PriceMovement::Up);
    assert_eq!(m.rounds[0].end_price, 150);
    assert_eq!(m.rounds[0].end_time, 1600);
    assert_eq!(m.game.counter, 1);

    // Winners split the whole 1000 pool proportionally to their stakes.
    assert_eq!(claim_unclaimed_prize(&mut m, 2, TOKEN, 0), Ok(333));
    assert_eq!(claim_unclaimed_prize(&mut m, 3, TOKEN, 0), Ok(666));
    // The division remainder stays in the round vault as dust.
    assert_eq!(m.rounds[0].vault, 1);
    // The loser gets nothing.
    assert_eq!(
        claim_unclaimed_prize(&mut m, 4, TOKEN, 0),
        Err(BullBearProgramError::NoPrizeClaimable)
    );
}

#[test]
fn payout_multiplies_before_dividing() {
    // A 100 stake on the winning 300 side of a 1000 pool earns
    // 100 * 1000 / 300 = 333. The naive order of operations would
    // truncate the quotient first and pay nothing.
    let naive: u64 = 100 / 300 * 1000;
    assert_eq!(naive, 0);

    let mut m = setup_market();
    initialize_new_round(&mut m, AUTHORITY).unwrap();
    start_current_round(&mut m, AUTHORITY, 1000, &obs(100, 990)).unwrap();
    place_new_bet(&mut m, 2, TOKEN, PriceMovement::Up, 100, 100).unwrap();
    place_new_bet(&mut m, 3, TOKEN, PriceMovement::Up, 200, 200).unwrap();
    place_new_bet(&mut m, 4, TOKEN, PriceMovement::Down, 700, 700).unwrap();
    close_betting_phase(&mut m, AUTHORITY, 1300).unwrap();
    end_current_round(&mut m, AUTHORITY, TOKEN, 1600, &obs(101, 1580)).unwrap();
    assert_eq!(claim_unclaimed_prize(&mut m, 2, TOKEN, 0), Ok(333));
}

#[test]
fn conservation_over_a_full_sequence() {
    let mut m = setup_market();
    let mut deposited: u64 = 0;
    let mut paid_out: u64 = 0;

    initialize_new_round(&mut m, AUTHORITY).unwrap();
    start_current_round(&mut m, AUTHORITY, 1000, &obs(100, 990)).unwrap();
    place_new_bet(&mut m, 2, TOKEN, PriceMovement::Up, 400, 400).unwrap();
    deposited += 400;
    place_new_bet(&mut m, 3, TOKEN, PriceMovement::Down, 600, 600).unwrap();
    deposited += 600;
    close_betting_phase(&mut m, AUTHORITY, 1300).unwrap();
    end_current_round(&mut m, AUTHORITY, TOKEN, 1600, &obs(90, 1590)).unwrap();
    paid_out += claim_unclaimed_prize(&mut m, 3, TOKEN, 0).unwrap();

    // Second round ends with no change and is refunded to the game vault.
    initialize_new_round(&mut m, AUTHORITY).unwrap();
    start_current_round(&mut m, AUTHORITY, 2000, &obs(100, 1990)).unwrap();
    place_new_bet(&mut m, 2, TOKEN, PriceMovement::Up, 50, 50).unwrap();
    deposited += 50;
    close_betting_phase(&mut m, AUTHORITY, 2300).unwrap();
    end_current_round(&mut m, AUTHORITY, TOKEN, 2600, &obs(100, 2590)).unwrap();
    paid_out += withdraw_game_funds(&mut m, AUTHORITY, TOKEN).unwrap();

    let vaults: u64 = m.game.vault + m.rounds.iter().map(|r| r.vault).sum::<u64>();
    assert_eq!(deposited, paid_out + vaults);
}

#[test]
fn counter_advances_by_one_per_ended_round() {
    let mut m = setup_market();
    for round in 0..3u16 {
        assert_eq!(m.game.counter, round);
        initialize_new_round(&mut m, AUTHORITY).unwrap();
        assert_eq!(m.rounds[round as usize].round_nr, round);
        let start = 1000 + 10_000 * round as i64;
        start_current_round(&mut m, AUTHORITY, start, &obs(100, start)).unwrap();
        assert_eq!(m.game.counter, round, "starting must not move the counter");
        close_betting_phase(&mut m, AUTHORITY, start + 300).unwrap();
        assert_eq!(m.game.counter, round, "closing must not move the counter");
        end_current_round(&mut m, AUTHORITY, TOKEN, start + 600, &obs(101, start + 590)).unwrap();
        assert_eq!(m.game.counter, round + 1);
    }
}

#[test]
fn interval_update_keeps_running_round_window() {
    let mut m = setup_market();
    initialize_new_round(&mut m, AUTHORITY).unwrap();
    start_current_round(&mut m, AUTHORITY, 1000, &obs(100, 990)).unwrap();
    // The update is allowed mid-round; the round keeps its captured end time.
    assert_eq!(update_round_interval(&mut m, AUTHORITY, 1000), Ok(()));
    assert_eq!(m.game.round_interval, 1000);
    assert_eq!(m.rounds[0].end_time, 1600);
    // But the betting-window gate reads the interval as it is now:
    // half of 1000 elapses at 1500, not at 1300.
    assert_eq!(
        close_betting_phase(&mut m, AUTHORITY, 1300),
        Err(BullBearProgramError::BettingPhaseNotEnded)
    );
    assert_eq!(close_betting_phase(&mut m, AUTHORITY, 1500), Ok(()));
}

#[test]
fn withdraw_takes_everything_once() {
    let mut m = setup_market();
    initialize_new_round(&mut m, AUTHORITY).unwrap();
    start_current_round(&mut m, AUTHORITY, 1000, &obs(100, 990)).unwrap();
    place_new_bet(&mut m, 2, TOKEN, PriceMovement::Up, 123, 123).unwrap();
    close_betting_phase(&mut m, AUTHORITY, 1300).unwrap();
    end_current_round(&mut m, AUTHORITY, TOKEN, 1600, &obs(100, 1590)).unwrap();
    assert_eq!(m.game.vault, 123);
    assert_eq!(withdraw_game_funds(&mut m, AUTHORITY, TOKEN), Ok(123));
    assert_eq!(m.game.vault, 0);
    assert_eq!(
        withdraw_game_funds(&mut m, AUTHORITY, TOKEN),
        Err(BullBearProgramError::NothingToWithdraw)
    );
}
