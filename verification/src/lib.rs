//! A pari-mutuel, oracle-settled prediction market engine.
//!
//! Participants stake a fungible token on whether an external price will
//! rise or fall over a fixed interval; when the round ends, winners split
//! the losing side's stake proportionally to their own. This crate holds
//! the core that must be exact under adversarial access: the round
//! lifecycle state machine, escrow custody accounting, and the
//! prize-settlement arithmetic, all with verified contracts.
//!
//! The host ledger (account persistence, the token-transfer primitive)
//! and the price oracle are external collaborators: the engine works on
//! plain balances, timestamps, and price observations that its caller
//! supplies, and states for each operation exactly which funds move.

pub mod bets;
pub mod errors;
pub mod game_ops;
pub mod laws;
pub mod market;
pub mod oracle;
pub mod rounds;
pub mod states;

use vstd::prelude::*;
use vstd::string::StringSliceAdditionalSpecFns;

use crate::errors::BullBearProgramError;
use crate::market::Market;
use crate::oracle::PriceObservation;
use crate::states::{PriceMovement, Protocol};

verus! {

/// Entry point for registering a protocol; see
/// [`game_ops::initialize_protocol`].
pub fn initialize(authority: u64, game_fee: u64) -> (p: Protocol)
    ensures
        p == (Protocol { authority, game_fee }),
{
    game_ops::initialize_protocol(authority, game_fee)
}

/// Entry point for creating a game; see [`game_ops::initialize_game`].
pub fn initialize_new_game(
    protocol: &Protocol,
    game_authority: u64,
    payer_balance: u64,
    round_interval: u64,
    feed_id: &str,
    token: u64,
) -> (r: Result<(Market, u64), BullBearProgramError>)
    ensures
        match r {
            Ok(pair) => game_ops::initialize_game_outcome(
                *protocol,
                payer_balance,
                feed_id.spec_bytes(),
            ) is None && pair.0.wf() && game_ops::initialize_game_ok(
                pair.0,
                pair.1,
                *protocol,
                game_authority,
                payer_balance,
                round_interval,
                feed_id.spec_bytes(),
                token,
            ),
            Err(e) => game_ops::initialize_game_outcome(
                *protocol,
                payer_balance,
                feed_id.spec_bytes(),
            ) == Some(e),
        },
{
    game_ops::initialize_game(protocol, game_authority, payer_balance, round_interval, feed_id, token)
}

/// Entry point for creating the current round; see
/// [`rounds::initialize_round`].
pub fn initialize_new_round(m: &mut Market, caller: u64) -> (r: Result<(), BullBearProgramError>)
    requires
        old(m).wf(),
    ensures
        final(m).wf(),
        rounds::initialize_round_post(*old(m), *final(m), caller, r),
{
    rounds::initialize_round(m, caller)
}

/// Entry point for starting the current round; see [`rounds::start_round`].
pub fn start_current_round(m: &mut Market, caller: u64, now: i64, obs: &PriceObservation) -> (r:
    Result<(), BullBearProgramError>)
    requires
        old(m).wf(),
        now + old(m).game.round_interval <= i64::MAX,
    ensures
        final(m).wf(),
        rounds::start_round_post(*old(m), *final(m), caller, now, *obs, r),
{
    rounds::start_round(m, caller, now, obs)
}

/// Entry point for placing a bet; see [`bets::place_bet`].
pub fn place_new_bet(
    m: &mut Market,
    player: u64,
    token: u64,
    prediction: PriceMovement,
    amount: u64,
    player_balance: u64,
) -> (r: Result<u64, BullBearProgramError>)
    requires
        old(m).wf(),
    ensures
        final(m).wf(),
        bets::place_bet_post(
            *old(m),
            *final(m),
            player,
            token,
            prediction,
            amount,
            player_balance,
            r,
        ),
{
    bets::place_bet(m, player, token, prediction, amount, player_balance)
}

/// Entry point for closing the betting phase; see
/// [`rounds::close_betting`].
pub fn close_betting_phase(m: &mut Market, caller: u64, now: i64) -> (r: Result<
    (),
    BullBearProgramError,
>)
    requires
        old(m).wf(),
    ensures
        final(m).wf(),
        rounds::close_betting_post(*old(m), *final(m), caller, now, r),
{
    rounds::close_betting(m, caller, now)
}

/// Entry point for ending the current round; see [`rounds::end_round`].
pub fn end_current_round(
    m: &mut Market,
    caller: u64,
    token: u64,
    now: i64,
    obs: &PriceObservation,
) -> (r: Result<(), BullBearProgramError>)
    requires
        old(m).wf(),
        old(m).game.counter < u16::MAX,
    ensures
        final(m).wf(),
        rounds::end_round_post(*old(m), *final(m), caller, token, now, *obs, r),
{
    rounds::end_round(m, caller, token, now, obs)
}

/// Entry point for claiming a prize; see [`bets::claim_prize`].
pub fn claim_unclaimed_prize(m: &mut Market, player: u64, token: u64, round_nr: u16) -> (r: Result<
    u64,
    BullBearProgramError,
>)
    requires
        old(m).wf(),
    ensures
        final(m).wf(),
        bets::claim_prize_post(*old(m), *final(m), player, token, round_nr, r),
{
    bets::claim_prize(m, player, token, round_nr)
}

/// Entry point for withdrawing the game vault; see
/// [`game_ops::withdraw_funds`].
pub fn withdraw_game_funds(m: &mut Market, caller: u64, token: u64) -> (r: Result<
    u64,
    BullBearProgramError,
>)
    requires
        old(m).wf(),
    ensures
        final(m).wf(),
        game_ops::withdraw_funds_post(*old(m), *final(m), caller, token, r),
{
    game_ops::withdraw_funds(m, caller, token)
}

/// Entry point for changing the round interval; see
/// [`game_ops::update_interval`].
pub fn update_round_interval(m: &mut Market, caller: u64, round_interval: u64) -> (r: Result<
    (),
    BullBearProgramError,
>)
    requires
        old(m).wf(),
    ensures
        final(m).wf(),
        game_ops::update_interval_post(*old(m), *final(m), caller, round_interval, r),
{
    game_ops::update_interval(m, caller, round_interval)
}

/// Entry point for exercising the oracle path; see
/// [`oracle::test_price_feed`].
pub fn test_feed(feed_id: &str, maximum_age: u64, now: i64, obs: &PriceObservation) -> (r: Result<
    i64,
    BullBearProgramError,
>)
    ensures
        !oracle::valid_feed_hex(feed_id.spec_bytes()) ==> r == Err::<i64, BullBearProgramError>(
            BullBearProgramError::InvalidFeedId,
        ),
        oracle::valid_feed_hex(feed_id.spec_bytes()) && !oracle::fresh_at(*obs, now, maximum_age)
            ==> r == Err::<i64, BullBearProgramError>(BullBearProgramError::OracleFailure),
        oracle::valid_feed_hex(feed_id.spec_bytes()) && oracle::fresh_at(*obs, now, maximum_age)
            ==> r == Ok::<i64, BullBearProgramError>(obs.price),
{
    oracle::test_price_feed(feed_id, maximum_age, now, obs)
}

} // verus!
