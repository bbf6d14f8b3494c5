use vstd::prelude::*;

use crate::bets::{
    bet_index_of, claim_prize_outcome, claim_prize_post, place_bet_outcome, place_bet_post,
};
use crate::errors::BullBearProgramError;
use crate::market::{bet_matches, has_bet, lemma_vaults_total_nonneg, vaults_total, Market};
use crate::oracle::{fresh_at, start_staleness_bound, PriceObservation};
use crate::rounds::{close_betting_outcome, end_round_outcome, start_round_outcome};
use crate::states::{BettingStatus, PriceMovement, RoundStatus, MAXIMUM_AGE};

verus! {

/// Conservation of value. In a well-formed market, everything players ever
/// deposited is either still held by the game vault or a round vault, or
/// was paid out by a prize claim or a withdrawal — no value is created or
/// destroyed. Every operation of this crate requires and preserves market
/// well-formedness, so this holds after any sequence of operations.
pub proof fn lemma_conservation(m: Market)
    requires
        m.wf(),
    ensures
        m.deposited@ == m.paid_out@ + m.game.vault + vaults_total(m.rounds@),
        m.paid_out@ >= 0,
        vaults_total(m.rounds@) >= 0,
{
    lemma_vaults_total_nonneg(m.rounds@);
}

/// A single bet per player per round. Once a player's bet in the current
/// round has been placed, any further attempt by the same player to place
/// a bet in that round fails with `DuplicateBet` and changes nothing —
/// whatever token, prediction, amount, or balance the second attempt
/// presents.
pub proof fn lemma_single_bet_per_round(
    pre: Market,
    mid: Market,
    post: Market,
    player: u64,
    token1: u64,
    prediction1: PriceMovement,
    amount1: u64,
    balance1: u64,
    r1: Result<u64, BullBearProgramError>,
    token2: u64,
    prediction2: PriceMovement,
    amount2: u64,
    balance2: u64,
    r2: Result<u64, BullBearProgramError>,
)
    requires
        pre.wf(),
        place_bet_post(pre, mid, player, token1, prediction1, amount1, balance1, r1),
        r1 is Ok,
        place_bet_post(mid, post, player, token2, prediction2, amount2, balance2, r2),
    ensures
        r2 == Err::<u64, BullBearProgramError>(BullBearProgramError::DuplicateBet),
        post == mid,
{
    let w = pre.bets@.len() as int;
    assert(bet_matches(mid.bets@[w], player, mid.game.counter));
    assert(has_bet(mid.bets@, player, mid.game.counter));
}

/// A round is bound to its slot: in a well-formed market, every round's
/// number equals the game counter's value at the round's creation, which
/// is its index in the sequence of rounds. Together with `end_round`'s
/// contract — the counter advances by exactly one per ended round, and no
/// other operation moves it — this pins the monotonic round progression.
pub proof fn lemma_round_number_binds(m: Market, i: int)
    requires
        m.wf(),
        0 <= i < m.rounds@.len(),
    ensures
        m.rounds@[i].round_nr == i,
{
    assert(m.round_wf(i));
}

/// The betting window gate. For an authorized close on an active round
/// with betting open, closing fails exactly while less than half the round
/// interval has elapsed since the round started, and then only with
/// `BettingPhaseNotEnded`; at or after the halfway point it succeeds.
pub proof fn lemma_betting_window_gate(m: Market, caller: u64, now: i64)
    requires
        m.wf(),
        m.has_current_round(),
        caller == m.game.game_authority,
        m.current_round().status == RoundStatus::Active,
        m.current_round().betting == BettingStatus::Open,
    ensures
        close_betting_outcome(m, caller, now) is None <==> now >= m.current_round().start_time
            + m.game.round_interval / 2,
        close_betting_outcome(m, caller, now) is Some ==> close_betting_outcome(m, caller, now)
            == Some(BullBearProgramError::BettingPhaseNotEnded),
{
}

/// The round-end gate. For an authorized end of an active round with
/// betting closed, a fresh observation, and a refund that fits the game
/// vault, ending fails exactly while the round's end time has not been
/// reached, and then only with `BettingPhaseNotEnded`; at or after the end
/// time it succeeds.
pub proof fn lemma_end_round_gate(
    m: Market,
    caller: u64,
    token: u64,
    now: i64,
    obs: PriceObservation,
)
    requires
        m.wf(),
        m.has_current_round(),
        token == m.game.token,
        caller == m.game.game_authority,
        m.current_round().status == RoundStatus::Active,
        m.current_round().betting == BettingStatus::Closed,
        fresh_at(obs, now, MAXIMUM_AGE),
        m.current_round().start_price == obs.price ==> m.game.vault + m.current_round().vault
            <= u64::MAX,
    ensures
        end_round_outcome(m, caller, token, now, obs) is None <==> now
            >= m.current_round().end_time,
        end_round_outcome(m, caller, token, now, obs) is Some ==> end_round_outcome(
            m,
            caller,
            token,
            now,
            obs,
        ) == Some(BullBearProgramError::BettingPhaseNotEnded),
{
}

/// No double claim. Once a prize claim has succeeded, any further claim by
/// the same player against the same round, presented with the game's
/// token, fails with `PrizeAlreadyClaimed` and changes nothing — in
/// particular, no vault balance moves.
pub proof fn lemma_no_double_claim(
    pre: Market,
    mid: Market,
    post: Market,
    player: u64,
    token: u64,
    round_nr: u16,
    r1: Result<u64, BullBearProgramError>,
    r2: Result<u64, BullBearProgramError>,
)
    requires
        pre.wf(),
        mid.wf(),
        claim_prize_post(pre, mid, player, token, round_nr, r1),
        r1 is Ok,
        claim_prize_post(mid, post, player, token, round_nr, r2),
    ensures
        r2 == Err::<u64, BullBearProgramError>(BullBearProgramError::PrizeAlreadyClaimed),
        post == mid,
{
    let j = bet_index_of(pre.bets@, player, round_nr);
    assert(bet_matches(mid.bets@[j], player, round_nr));
    assert(has_bet(mid.bets@, player, round_nr));
    let j2 = bet_index_of(mid.bets@, player, round_nr);
    assert(bet_matches(mid.bets@[j2], player, round_nr));
    if j2 != j {
        let lo = if j2 < j {
            j2
        } else {
            j
        };
        let hi = if j2 < j {
            j
        } else {
            j2
        };
        assert(!(bet_matches(mid.bets@[lo], mid.bets@[hi].player, mid.bets@[hi].round_nr)));
    }
    assert(mid.bets@[j2].claimed);
}

/// No claim against a round that ended without a price change. A round
/// whose outcome is `NoChange` — whose vault was refunded to the game
/// vault when it ended — admits no successful prize claim by anyone: every
/// bet predicts `Up` or `Down`, so none matches the outcome.
pub proof fn lemma_no_change_unclaimable(m: Market, player: u64, token: u64, round_nr: u16)
    requires
        m.wf(),
        round_nr < m.rounds@.len(),
        m.rounds@[round_nr as int].result == PriceMovement::NoChange,
    ensures
        claim_prize_outcome(m, player, token, round_nr) is Some,
{
    assert(m.round_wf(round_nr as int));
    if has_bet(m.bets@, player, round_nr) {
        let j = bet_index_of(m.bets@, player, round_nr);
        assert(bet_matches(m.bets@[j], player, round_nr));
        assert(m.bet_wf(j));
    }
}

/// Oracle staleness gates the start of a round: an authorized start of a
/// not-yet-started round fails with `OracleFailure` whenever the supplied
/// observation is older than the applicable bound — the round interval,
/// but never a tighter bound than the default floor.
pub proof fn lemma_oracle_staleness_start(
    m: Market,
    caller: u64,
    now: i64,
    obs: PriceObservation,
)
    requires
        m.wf(),
        m.has_current_round(),
        caller == m.game.game_authority,
        m.current_round().start_time == 0,
        !fresh_at(obs, now, start_staleness_bound(m.game.round_interval)),
    ensures
        start_round_outcome(m, caller, now, obs) == Some(BullBearProgramError::OracleFailure),
{
}

/// Oracle staleness gates the end of a round: an authorized end of a
/// mature round fails with `OracleFailure` whenever the supplied
/// observation is older than the default staleness bound.
pub proof fn lemma_oracle_staleness_end(
    m: Market,
    caller: u64,
    token: u64,
    now: i64,
    obs: PriceObservation,
)
    requires
        m.wf(),
        m.has_current_round(),
        token == m.game.token,
        caller == m.game.game_authority,
        m.current_round().status == RoundStatus::Active,
        m.current_round().betting == BettingStatus::Closed,
        now >= m.current_round().end_time,
        !fresh_at(obs, now, MAXIMUM_AGE),
    ensures
        end_round_outcome(m, caller, token, now, obs) == Some(BullBearProgramError::OracleFailure),
{
}

} // verus!
