use vstd::prelude::*;

use crate::errors::BullBearProgramError;
use crate::market::{
    lemma_no_bets_sums_zero, lemma_sums_nonneg, lemma_unclaimed_le_side, lemma_vaults_total_push,
    lemma_vaults_total_update, lemma_wf_replace_current, Market,
};
use crate::oracle::{fresh_at, is_fresh, start_staleness_bound, PriceObservation};
use crate::states::{BettingStatus, Game, PriceMovement, Round, RoundStatus, MAXIMUM_AGE};

verus! {

/// Why creating a round fails, if it does: the current counter slot must
/// still be empty, and only the game authority may create rounds.
pub open spec fn initialize_round_outcome(m: Market, caller: u64) -> Option<
    BullBearProgramError,
> {
    if m.has_current_round() {
        Some(BullBearProgramError::RoundAlreadyCreated)
    } else if caller != m.game.game_authority {
        Some(BullBearProgramError::SignerNotAuthorized)
    } else {
        Option::None
    }
}

/// The round as it is born: bound to the game's current counter, inactive,
/// closed to betting, unresolved, and empty.
pub open spec fn fresh_round(round_nr: u16) -> Round {
    Round {
        round_nr,
        start_time: 0,
        end_time: 0,
        start_price: 0,
        end_price: 0,
        total_up: 0,
        total_down: 0,
        betting: BettingStatus::Closed,
        result: PriceMovement::Unset,
        status: RoundStatus::Inactive,
        num_bets: 0,
        vault: 0,
    }
}

/// The full effect of `initialize_round`.
pub open spec fn initialize_round_post(
    pre: Market,
    post: Market,
    caller: u64,
    r: Result<(), BullBearProgramError>,
) -> bool {
    match initialize_round_outcome(pre, caller) {
        Some(e) => r == Err::<(), BullBearProgramError>(e) && post == pre,
        Option::None => {
            &&& r == Ok::<(), BullBearProgramError>(())
            &&& post.rounds@ == pre.rounds@.push(fresh_round(pre.game.counter))
            &&& post.game == pre.game
            &&& post.protocol == pre.protocol
            &&& post.bets@ == pre.bets@
            &&& post.deposited == pre.deposited
            &&& post.paid_out == pre.paid_out
        },
    }
}

/// Creates the round for the game's current counter slot. The new round is
/// inactive and closed to betting until it is started.
pub fn initialize_round(m: &mut Market, caller: u64) -> (r: Result<(), BullBearProgramError>)
    requires
        old(m).wf(),
    ensures
        final(m).wf(),
        initialize_round_post(*old(m), *final(m), caller, r),
{
    let c = m.game.counter as usize;
    if c < m.rounds.len() {
        return Err(BullBearProgramError::RoundAlreadyCreated);
    }
    if caller != m.game.game_authority {
        return Err(BullBearProgramError::SignerNotAuthorized);
    }
    let round = Round {
        round_nr: m.game.counter,
        start_time: 0,
        end_time: 0,
        start_price: 0,
        end_price: 0,
        total_up: 0,
        total_down: 0,
        betting: BettingStatus::Closed,
        result: PriceMovement::Unset,
        status: RoundStatus::Inactive,
        num_bets: 0,
        vault: 0,
    };
    m.rounds.push(round);
    proof {
        let pre = *old(m);
        let nr = pre.game.counter;
        lemma_vaults_total_push(pre.rounds@, fresh_round(nr));
        assert forall|j: int| 0 <= j < pre.bets@.len() implies (#[trigger] pre.bets@[j]).round_nr
            != nr by {
            assert(pre.bet_wf(j));
        }
        lemma_no_bets_sums_zero(pre.bets@, nr, PriceMovement::Up);
        lemma_no_bets_sums_zero(pre.bets@, nr, PriceMovement::Down);
        assert forall|i: int| 0 <= i < m.rounds@.len() implies m.round_wf(i) by {
            if i < pre.rounds@.len() {
                assert(pre.round_wf(i));
                assert(m.rounds@[i] == pre.rounds@[i]);
            }
        }
        assert forall|j: int| 0 <= j < m.bets@.len() implies m.bet_wf(j) by {
            assert(pre.bet_wf(j));
            assert(m.rounds@[pre.bets@[j].round_nr as int] == pre.rounds@[pre.bets@[j].round_nr as int]);
        }
        assert forall|j: int, k: int| 0 <= j < k < m.bets@.len() implies !(crate::market::bet_matches(
            #[trigger] m.bets@[j],
            m.bets@[k].player,
            (#[trigger] m.bets@[k]).round_nr,
        )) by {
            assert(!(crate::market::bet_matches(
                pre.bets@[j],
                pre.bets@[k].player,
                pre.bets@[k].round_nr,
            )));
        }
    }
    Ok(())
}

/// Why starting a round fails, if it does: the current round must exist,
/// the caller must be the game authority, the round must not have been
/// started before (its start time is still unset), and the supplied price
/// observation must be fresh under a bound that scales with the round
/// length and is never stricter than the default floor.
pub open spec fn start_round_outcome(
    m: Market,
    caller: u64,
    now: i64,
    obs: PriceObservation,
) -> Option<BullBearProgramError> {
    if !m.has_current_round() {
        Some(BullBearProgramError::RoundNotFound)
    } else if caller != m.game.game_authority {
        Some(BullBearProgramError::SignerNotAuthorized)
    } else if m.current_round().start_time != 0 {
        Some(BullBearProgramError::RoundAlreadyStarted)
    } else if !fresh_at(obs, now, start_staleness_bound(m.game.round_interval)) {
        Some(BullBearProgramError::OracleFailure)
    } else {
        Option::None
    }
}

/// The full effect of `start_round`: on success the current round becomes
/// active and open for betting, captures the observed price as its start
/// price, and fixes its betting window as `[now, now + round_interval]`.
pub open spec fn start_round_post(
    pre: Market,
    post: Market,
    caller: u64,
    now: i64,
    obs: PriceObservation,
    r: Result<(), BullBearProgramError>,
) -> bool {
    match start_round_outcome(pre, caller, now, obs) {
        Some(e) => r == Err::<(), BullBearProgramError>(e) && post == pre,
        Option::None => {
            &&& r == Ok::<(), BullBearProgramError>(())
            &&& post.rounds@ == pre.rounds@.update(
                pre.cur(),
                (Round {
                    start_time: now,
                    end_time: (now + pre.game.round_interval) as i64,
                    start_price: obs.price,
                    status: RoundStatus::Active,
                    betting: BettingStatus::Open,
                    result: PriceMovement::Unset,
                    ..pre.current_round()
                }),
            )
            &&& post.game == pre.game
            &&& post.protocol == pre.protocol
            &&& post.bets@ == pre.bets@
            &&& post.deposited == pre.deposited
            &&& post.paid_out == pre.paid_out
        },
    }
}

/// Starts the current round: sets its price window from the supplied
/// oracle observation and the wall clock, makes it active, and opens
/// betting. The caller supplies the current time and the freshest
/// observation it has; a stale one is rejected.
pub fn start_round(m: &mut Market, caller: u64, now: i64, obs: &PriceObservation) -> (r: Result<
    (),
    BullBearProgramError,
>)
    requires
        old(m).wf(),
        now + old(m).game.round_interval <= i64::MAX,
    ensures
        final(m).wf(),
        start_round_post(*old(m), *final(m), caller, now, *obs, r),
{
    let c = m.game.counter as usize;
    if c >= m.rounds.len() {
        return Err(BullBearProgramError::RoundNotFound);
    }
    if caller != m.game.game_authority {
        return Err(BullBearProgramError::SignerNotAuthorized);
    }
    let mut round = m.rounds[c];
    if round.start_time != 0 {
        return Err(BullBearProgramError::RoundAlreadyStarted);
    }
    let bound = if m.game.round_interval > MAXIMUM_AGE {
        m.game.round_interval
    } else {
        MAXIMUM_AGE
    };
    if !is_fresh(obs, now, bound) {
        return Err(BullBearProgramError::OracleFailure);
    }
    let end_time_wide: i128 = now as i128 + m.game.round_interval as i128;
    round.start_time = now;
    round.end_time = end_time_wide as i64;
    round.start_price = obs.price;
    round.status = RoundStatus::Active;
    round.betting = BettingStatus::Open;
    round.result = PriceMovement::Unset;
    m.rounds.set(c, round);
    proof {
        let pre = *old(m);
        lemma_vaults_total_update(pre.rounds@, pre.cur(), m.rounds@[pre.cur()]);
        assert(pre.round_wf(pre.cur()));
        lemma_wf_replace_current(pre, *m);
    }
    Ok(())
}

/// Why closing betting fails, if it does: the current round must exist and
/// be active with betting open, the caller must be the game authority, and
/// at least half of the round interval must have elapsed since the round
/// started.
pub open spec fn close_betting_outcome(m: Market, caller: u64, now: i64) -> Option<
    BullBearProgramError,
> {
    if !m.has_current_round() {
        Some(BullBearProgramError::RoundNotFound)
    } else if caller != m.game.game_authority {
        Some(BullBearProgramError::SignerNotAuthorized)
    } else if m.current_round().status != RoundStatus::Active {
        Some(BullBearProgramError::RoundNotActive)
    } else if m.current_round().betting != BettingStatus::Open {
        Some(BullBearProgramError::BettingIsClosed)
    } else if now < m.current_round().start_time + m.game.round_interval / 2 {
        Some(BullBearProgramError::BettingPhaseNotEnded)
    } else {
        Option::None
    }
}

/// The full effect of `close_betting`.
pub open spec fn close_betting_post(
    pre: Market,
    post: Market,
    caller: u64,
    now: i64,
    r: Result<(), BullBearProgramError>,
) -> bool {
    match close_betting_outcome(pre, caller, now) {
        Some(e) => r == Err::<(), BullBearProgramError>(e) && post == pre,
        Option::None => {
            &&& r == Ok::<(), BullBearProgramError>(())
            &&& post.rounds@ == pre.rounds@.update(
                pre.cur(),
                (Round { betting: BettingStatus::Closed, ..pre.current_round() }),
            )
            &&& post.game == pre.game
            &&& post.protocol == pre.protocol
            &&& post.bets@ == pre.bets@
            &&& post.deposited == pre.deposited
            &&& post.paid_out == pre.paid_out
        },
    }
}

/// Closes betting on the current round once at least half of the round
/// interval has elapsed since it started. Every round therefore has a
/// mandatory betting window over its first half, and no stakes join during
/// its second half. The elapsed-time comparison reads the game's current
/// round interval, not the one the round captured when it started.
pub fn close_betting(m: &mut Market, caller: u64, now: i64) -> (r: Result<
    (),
    BullBearProgramError,
>)
    requires
        old(m).wf(),
    ensures
        final(m).wf(),
        close_betting_post(*old(m), *final(m), caller, now, r),
{
    let c = m.game.counter as usize;
    if c >= m.rounds.len() {
        return Err(BullBearProgramError::RoundNotFound);
    }
    if caller != m.game.game_authority {
        return Err(BullBearProgramError::SignerNotAuthorized);
    }
    let mut round = m.rounds[c];
    if round.status != RoundStatus::Active {
        return Err(BullBearProgramError::RoundNotActive);
    }
    if round.betting != BettingStatus::Open {
        return Err(BullBearProgramError::BettingIsClosed);
    }
    let half_gate: i128 = round.start_time as i128 + (m.game.round_interval / 2) as i128;
    if (now as i128) < half_gate {
        return Err(BullBearProgramError::BettingPhaseNotEnded);
    }
    round.betting = BettingStatus::Closed;
    m.rounds.set(c, round);
    proof {
        let pre = *old(m);
        lemma_vaults_total_update(pre.rounds@, pre.cur(), m.rounds@[pre.cur()]);
        assert(pre.round_wf(pre.cur()));
        lemma_wf_replace_current(pre, *m);
    }
    Ok(())
}

/// The movement of the price over a round: up, down, or no change.
pub open spec fn price_movement_of(start_price: i64, end_price: i64) -> PriceMovement {
    if start_price < end_price {
        PriceMovement::Up
    } else if start_price > end_price {
        PriceMovement::Down
    } else {
        PriceMovement::NoChange
    }
}

/// Why ending a round fails, if it does: the current round must exist, the
/// caller must present the game's token and be the game authority, the
/// round must be active with betting closed, its end time must have been
/// reached, the supplied observation must be fresh under the default
/// staleness bound, and — when the price did not change — the refund of the
/// round vault into the game vault must fit the game vault's balance type.
pub open spec fn end_round_outcome(
    m: Market,
    caller: u64,
    token: u64,
    now: i64,
    obs: PriceObservation,
) -> Option<BullBearProgramError> {
    if !m.has_current_round() {
        Some(BullBearProgramError::RoundNotFound)
    } else if token != m.game.token {
        Some(BullBearProgramError::InvalidMintAccount)
    } else if caller != m.game.game_authority {
        Some(BullBearProgramError::SignerNotAuthorized)
    } else if m.current_round().status != RoundStatus::Active {
        Some(BullBearProgramError::RoundNotActive)
    } else if m.current_round().betting != BettingStatus::Closed {
        Some(BullBearProgramError::BettingNeedsToBeClosed)
    } else if now < m.current_round().end_time {
        Some(BullBearProgramError::BettingPhaseNotEnded)
    } else if !fresh_at(obs, now, MAXIMUM_AGE) {
        Some(BullBearProgramError::OracleFailure)
    } else if m.current_round().start_price == obs.price && m.game.vault
        + m.current_round().vault > u64::MAX {
        Some(BullBearProgramError::EscrowFailure)
    } else {
        Option::None
    }
}

/// The full effect of `end_round`: on success the current round is
/// resolved against the observed price and ended, and the game's counter
/// advances by exactly one. When the price did not change, the entire
/// round vault moves back to the game vault and no bet in the round is
/// ever claimable.
pub open spec fn end_round_post(
    pre: Market,
    post: Market,
    caller: u64,
    token: u64,
    now: i64,
    obs: PriceObservation,
    r: Result<(), BullBearProgramError>,
) -> bool {
    match end_round_outcome(pre, caller, token, now, obs) {
        Some(e) => r == Err::<(), BullBearProgramError>(e) && post == pre,
        Option::None => {
            let movement = price_movement_of(pre.current_round().start_price, obs.price);
            let refunded = movement == PriceMovement::NoChange;
            &&& r == Ok::<(), BullBearProgramError>(())
            &&& post.rounds@ == pre.rounds@.update(
                pre.cur(),
                (Round {
                    end_price: obs.price,
                    end_time: now,
                    result: movement,
                    status: RoundStatus::Ended,
                    vault: if refunded {
                        0u64
                    } else {
                        pre.current_round().vault
                    },
                    ..pre.current_round()
                }),
            )
            &&& post.game == (Game {
                counter: (pre.game.counter + 1) as u16,
                vault: if refunded {
                    (pre.game.vault + pre.current_round().vault) as u64
                } else {
                    pre.game.vault
                },
                ..pre.game
            })
            &&& post.protocol == pre.protocol
            &&& post.bets@ == pre.bets@
            &&& post.deposited == pre.deposited
            &&& post.paid_out == pre.paid_out
        },
    }
}

/// Ends the current round: resolves the outcome by comparing the round's
/// start price with the supplied observation, refunds the round vault to
/// the game vault when the price did not change, and advances the game's
/// counter to the next round slot. The counter must have room for that
/// next slot, so the game cannot end more rounds than its counter type
/// can number.
pub fn end_round(
    m: &mut Market,
    caller: u64,
    token: u64,
    now: i64,
    obs: &PriceObservation,
) -> (r: Result<(), BullBearProgramError>)
    requires
        old(m).wf(),
        old(m).game.counter < u16::MAX,
    ensures
        final(m).wf(),
        end_round_post(*old(m), *final(m), caller, token, now, *obs, r),
{
    let c = m.game.counter as usize;
    if c >= m.rounds.len() {
        return Err(BullBearProgramError::RoundNotFound);
    }
    if token != m.game.token {
        return Err(BullBearProgramError::InvalidMintAccount);
    }
    if caller != m.game.game_authority {
        return Err(BullBearProgramError::SignerNotAuthorized);
    }
    let mut round = m.rounds[c];
    if round.status != RoundStatus::Active {
        return Err(BullBearProgramError::RoundNotActive);
    }
    if round.betting != BettingStatus::Closed {
        return Err(BullBearProgramError::BettingNeedsToBeClosed);
    }
    if now < round.end_time {
        return Err(BullBearProgramError::BettingPhaseNotEnded);
    }
    if !is_fresh(obs, now, MAXIMUM_AGE) {
        return Err(BullBearProgramError::OracleFailure);
    }
    round.end_price = obs.price;
    round.end_time = now;
    if round.start_price < obs.price {
        round.result = PriceMovement::Up;
    } else if round.start_price > obs.price {
        round.result = PriceMovement::Down;
    } else {
        round.result = PriceMovement::NoChange;
        match m.game.vault.checked_add(round.vault) {
            Some(v) => {
                m.game.vault = v;
                round.vault = 0;
            },
            Option::None => {
                return Err(BullBearProgramError::EscrowFailure);
            },
        }
    }
    round.status = RoundStatus::Ended;
    m.rounds.set(c, round);
    m.game.counter = m.game.counter + 1;
    proof {
        let pre = *old(m);
        let cc = pre.cur();
        let rn = pre.rounds@[cc].round_nr;
        let r2 = m.rounds@[cc];
        let pool = pre.rounds@[cc].total_up + pre.rounds@[cc].total_down;
        lemma_vaults_total_update(pre.rounds@, cc, r2);
        assert(pre.round_wf(cc));
        lemma_unclaimed_le_side(pre.bets@, rn, PriceMovement::Up);
        lemma_unclaimed_le_side(pre.bets@, rn, PriceMovement::Down);
        lemma_sums_nonneg(pre.bets@, rn, PriceMovement::Up);
        lemma_sums_nonneg(pre.bets@, rn, PriceMovement::Down);
        assert(r2.vault * r2.total_up >= crate::market::unclaimed_total(
            m.bets@,
            rn,
            PriceMovement::Up,
        ) * pool || r2.result != PriceMovement::Up) by (nonlinear_arith)
            requires
                r2.result == PriceMovement::Up ==> r2.vault == pool && r2.total_up
                    >= crate::market::unclaimed_total(m.bets@, rn, PriceMovement::Up) >= 0,
        ;
        assert(r2.vault * r2.total_down >= crate::market::unclaimed_total(
            m.bets@,
            rn,
            PriceMovement::Down,
        ) * pool || r2.result != PriceMovement::Down) by (nonlinear_arith)
            requires
                r2.result == PriceMovement::Down ==> r2.vault == pool && r2.total_down
                    >= crate::market::unclaimed_total(m.bets@, rn, PriceMovement::Down) >= 0,
        ;
        assert(m.round_wf(cc));
        assert forall|i: int| 0 <= i < m.rounds@.len() implies m.round_wf(i) by {
            if i != cc {
                assert(pre.round_wf(i));
                assert(m.rounds@[i] == pre.rounds@[i]);
            }
        }
        assert forall|j: int| 0 <= j < m.bets@.len() implies m.bet_wf(j) by {
            assert(pre.bet_wf(j));
            let brn = pre.bets@[j].round_nr as int;
            if brn == cc {
                assert(pre.round_wf(cc));
            } else {
                assert(m.rounds@[brn] == pre.rounds@[brn]);
            }
        }
        assert forall|j: int, k: int| 0 <= j < k < m.bets@.len() implies !(crate::market::bet_matches(
            #[trigger] m.bets@[j],
            m.bets@[k].player,
            (#[trigger] m.bets@[k]).round_nr,
        )) by {
            assert(!(crate::market::bet_matches(
                pre.bets@[j],
                pre.bets@[k].player,
                pre.bets@[k].round_nr,
            )));
        }
    }
    Ok(())
}

} // verus!
