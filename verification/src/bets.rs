use vstd::prelude::*;
use vstd::arithmetic::div_mod::{
    lemma_fundamental_div_mod, lemma_mod_division_less_than_divisor,
};

use crate::errors::BullBearProgramError;
use crate::market::{
    bet_matches, find_bet, has_bet, lemma_bet_count_push, lemma_bet_count_update,
    lemma_side_ge_bet, lemma_side_total_push, lemma_side_total_update, lemma_sums_nonneg,
    lemma_unclaimed_ge_bet, lemma_unclaimed_le_side, lemma_unclaimed_total_claim,
    lemma_unclaimed_total_push, lemma_vaults_total_update, Market,
};
use crate::states::{Bet, BettingStatus, PriceMovement, Round, RoundStatus};

verus! {

/// Why placing a bet fails, if it does: the current round must exist, the
/// player must not already hold a bet in it, the caller must present the
/// game's token, the round must be active with betting open, the
/// prediction must be a real movement, the aggregates must not overflow,
/// and the player must be able to pay the stake into a vault that can
/// hold it.
pub open spec fn place_bet_outcome(
    m: Market,
    player: u64,
    token: u64,
    prediction: PriceMovement,
    amount: u64,
    player_balance: u64,
) -> Option<BullBearProgramError> {
    let r = m.current_round();
    if !m.has_current_round() {
        Some(BullBearProgramError::RoundNotFound)
    } else if has_bet(m.bets@, player, m.game.counter) {
        Some(BullBearProgramError::DuplicateBet)
    } else if token != m.game.token {
        Some(BullBearProgramError::InvalidMintAccount)
    } else if r.status != RoundStatus::Active {
        Some(BullBearProgramError::RoundNotActive)
    } else if r.betting != BettingStatus::Open {
        Some(BullBearProgramError::BettingIsClosed)
    } else if prediction != PriceMovement::Up && prediction != PriceMovement::Down {
        Some(BullBearProgramError::InvalidPrediction)
    } else if (prediction == PriceMovement::Up && r.total_up + amount > u64::MAX) || (prediction
        == PriceMovement::Down && r.total_down + amount > u64::MAX) || r.num_bets + 1
        > u16::MAX {
        Some(BullBearProgramError::MaximumBetAmountReached)
    } else if r.vault + amount > u64::MAX || player_balance < amount {
        Some(BullBearProgramError::EscrowFailure)
    } else {
        Option::None
    }
}

/// The full effect of `place_bet`: on success the stake joins the
/// predicted side's total and the round vault, a fresh unclaimed bet
/// records the (player, round) pair, and the player's balance shrinks by
/// exactly the stake.
pub open spec fn place_bet_post(
    pre: Market,
    post: Market,
    player: u64,
    token: u64,
    prediction: PriceMovement,
    amount: u64,
    player_balance: u64,
    r: Result<u64, BullBearProgramError>,
) -> bool {
    match place_bet_outcome(pre, player, token, prediction, amount, player_balance) {
        Some(e) => r == Err::<u64, BullBearProgramError>(e) && post == pre,
        Option::None => {
            let rd = pre.current_round();
            let up = prediction == PriceMovement::Up;
            &&& r == Ok::<u64, BullBearProgramError>((player_balance - amount) as u64)
            &&& post.rounds@ == pre.rounds@.update(
                pre.cur(),
                (Round {
                    total_up: if up {
                        (rd.total_up + amount) as u64
                    } else {
                        rd.total_up
                    },
                    total_down: if up {
                        rd.total_down
                    } else {
                        (rd.total_down + amount) as u64
                    },
                    num_bets: (rd.num_bets + 1) as u16,
                    vault: (rd.vault + amount) as u64,
                    ..rd
                }),
            )
            &&& post.bets@ == pre.bets@.push(
                (Bet { player, round_nr: pre.game.counter, prediction, amount, claimed: false }),
            )
            &&& post.game == pre.game
            &&& post.protocol == pre.protocol
            &&& post.deposited@ == pre.deposited@ + amount
            &&& post.paid_out == pre.paid_out
        },
    }
}

/// Places a stake of `amount` on `prediction` in the current round and
/// moves the stake from the player's balance into the round vault. The
/// returned value is the player's balance after the stake was taken.
/// At most one bet per (player, round) pair can ever be created.
pub fn place_bet(
    m: &mut Market,
    player: u64,
    token: u64,
    prediction: PriceMovement,
    amount: u64,
    player_balance: u64,
) -> (r: Result<u64, BullBearProgramError>)
    requires
        old(m).wf(),
    ensures
        final(m).wf(),
        place_bet_post(*old(m), *final(m), player, token, prediction, amount, player_balance, r),
{
    let c = m.game.counter as usize;
    if c >= m.rounds.len() {
        return Err(BullBearProgramError::RoundNotFound);
    }
    match find_bet(&m.bets, player, m.game.counter) {
        Some(_) => {
            return Err(BullBearProgramError::DuplicateBet);
        },
        Option::None => {},
    }
    if token != m.game.token {
        return Err(BullBearProgramError::InvalidMintAccount);
    }
    let mut round = m.rounds[c];
    if round.status != RoundStatus::Active {
        return Err(BullBearProgramError::RoundNotActive);
    }
    if round.betting != BettingStatus::Open {
        return Err(BullBearProgramError::BettingIsClosed);
    }
    let up = prediction == PriceMovement::Up;
    if !up && prediction != PriceMovement::Down {
        return Err(BullBearProgramError::InvalidPrediction);
    }
    let side = if up {
        round.total_up
    } else {
        round.total_down
    };
    let new_side = match side.checked_add(amount) {
        Some(v) => v,
        Option::None => {
            return Err(BullBearProgramError::MaximumBetAmountReached);
        },
    };
    let new_num = match round.num_bets.checked_add(1) {
        Some(v) => v,
        Option::None => {
            return Err(BullBearProgramError::MaximumBetAmountReached);
        },
    };
    let new_vault = match round.vault.checked_add(amount) {
        Some(v) => v,
        Option::None => {
            return Err(BullBearProgramError::EscrowFailure);
        },
    };
    if player_balance < amount {
        return Err(BullBearProgramError::EscrowFailure);
    }
    if up {
        round.total_up = new_side;
    } else {
        round.total_down = new_side;
    }
    round.num_bets = new_num;
    round.vault = new_vault;
    m.rounds.set(c, round);
    let bet = Bet { player, round_nr: m.game.counter, prediction, amount, claimed: false };
    m.bets.push(bet);
    m.deposited = Ghost(m.deposited@ + amount);
    proof {
        let pre = *old(m);
        let cc = pre.cur();
        let b = pre.bets@.len() as int;
        lemma_vaults_total_update(pre.rounds@, cc, m.rounds@[cc]);
        assert forall|i: int| 0 <= i < m.rounds@.len() implies m.round_wf(i) by {
            assert(pre.round_wf(i));
            let irn = pre.rounds@[i].round_nr;
            lemma_side_total_push(pre.bets@, bet, irn, PriceMovement::Up);
            lemma_side_total_push(pre.bets@, bet, irn, PriceMovement::Down);
            lemma_unclaimed_total_push(pre.bets@, bet, irn, PriceMovement::Up);
            lemma_unclaimed_total_push(pre.bets@, bet, irn, PriceMovement::Down);
            lemma_bet_count_push(pre.bets@, bet, irn);
            if i != cc {
                assert(m.rounds@[i] == pre.rounds@[i]);
            }
        }
        assert forall|j: int| 0 <= j < m.bets@.len() implies m.bet_wf(j) by {
            if j < b {
                assert(pre.bet_wf(j));
                let brn = pre.bets@[j].round_nr as int;
                if brn == cc {
                    assert(pre.round_wf(cc));
                } else {
                    assert(m.rounds@[brn] == pre.rounds@[brn]);
                }
            }
        }
        assert forall|j: int, k: int| 0 <= j < k < m.bets@.len() implies !(bet_matches(
            #[trigger] m.bets@[j],
            m.bets@[k].player,
            (#[trigger] m.bets@[k]).round_nr,
        )) by {
            if k < b {
                assert(!(bet_matches(pre.bets@[j], pre.bets@[k].player, pre.bets@[k].round_nr)));
            } else {
                assert(m.bets@[k] == bet);
                assert(!(bet_matches(pre.bets@[j], player, pre.game.counter)));
            }
        }
    }
    Ok(player_balance - amount)
}

/// Index of the bet of `player` in round `round_nr`. Under market
/// well-formedness at most one such bet exists, so this picks it.
pub open spec fn bet_index_of(bets: Seq<Bet>, player: u64, round_nr: u16) -> int {
    choose|j: int| 0 <= j < bets.len() && bet_matches(#[trigger] bets[j], player, round_nr)
}

/// The side total that a resolved round pays prizes from: the total staked
/// on the winning side.
pub open spec fn winning_total(r: Round) -> u64 {
    if r.result == PriceMovement::Up {
        r.total_up
    } else {
        r.total_down
    }
}

/// The prize pool of a round: everything staked on it, both sides together.
pub open spec fn prize_pool(r: Round) -> int {
    r.total_up + r.total_down
}

/// The prize a winning stake of `amount` earns out of `pool` when the
/// winning side staked `winning` in total: the stake's proportional share,
/// computed by multiplying first and dividing once at the end, so that no
/// precision is lost before scaling. Remainders are truncated; the dust
/// stays in the round vault.
pub open spec fn payout_amount(amount: u64, winning: u64, pool: int) -> int {
    if winning == 0 {
        0
    } else {
        amount * pool / (winning as int)
    }
}

/// Why claiming a prize fails, if it does: the addressed round and the
/// caller's bet in it must exist, the caller must present the game's
/// token, the round must have ended, the bet must have predicted the
/// round's outcome, and the prize must not have been claimed before.
pub open spec fn claim_prize_outcome(m: Market, player: u64, token: u64, round_nr: u16) -> Option<
    BullBearProgramError,
> {
    let rd = m.rounds@[round_nr as int];
    let b = m.bets@[bet_index_of(m.bets@, player, round_nr)];
    if round_nr >= m.rounds@.len() {
        Some(BullBearProgramError::RoundNotFound)
    } else if !has_bet(m.bets@, player, round_nr) {
        Some(BullBearProgramError::BetNotFound)
    } else if token != m.game.token {
        Some(BullBearProgramError::InvalidMintAccount)
    } else if rd.status != RoundStatus::Ended {
        Some(BullBearProgramError::CurrentRoundNotEnded)
    } else if rd.result != b.prediction {
        Some(BullBearProgramError::NoPrizeClaimable)
    } else if b.claimed {
        Some(BullBearProgramError::PrizeAlreadyClaimed)
    } else {
        Option::None
    }
}

/// The full effect of `claim_prize`: on success the winning bet is marked
/// claimed, its proportional share of the prize pool leaves the round
/// vault, and that share is the returned payout.
pub open spec fn claim_prize_post(
    pre: Market,
    post: Market,
    player: u64,
    token: u64,
    round_nr: u16,
    r: Result<u64, BullBearProgramError>,
) -> bool {
    match claim_prize_outcome(pre, player, token, round_nr) {
        Some(e) => r == Err::<u64, BullBearProgramError>(e) && post == pre,
        Option::None => {
            let j = bet_index_of(pre.bets@, player, round_nr);
            let b = pre.bets@[j];
            let rd = pre.rounds@[round_nr as int];
            let prize = payout_amount(b.amount, winning_total(rd), prize_pool(rd));
            &&& r == Ok::<u64, BullBearProgramError>(prize as u64)
            &&& post.rounds@ == pre.rounds@.update(
                round_nr as int,
                (Round { vault: (rd.vault - prize) as u64, ..rd }),
            )
            &&& post.bets@ == pre.bets@.update(j, (Bet { claimed: true, ..b }))
            &&& post.game == pre.game
            &&& post.protocol == pre.protocol
            &&& post.deposited == pre.deposited
            &&& post.paid_out@ == pre.paid_out@ + prize
        },
    }
}

/// Pays the prize for the bet of `player` in round `round_nr`. The prize
/// is the bet's proportional share of the round's whole pool: the stake
/// times the pool, divided by the winning side's total. The round vault
/// always covers it, so a claim that passes the checks never fails on the
/// transfer.
pub fn claim_prize(m: &mut Market, player: u64, token: u64, round_nr: u16) -> (r: Result<
    u64,
    BullBearProgramError,
>)
    requires
        old(m).wf(),
    ensures
        final(m).wf(),
        claim_prize_post(*old(m), *final(m), player, token, round_nr, r),
{
    let rn = round_nr as usize;
    if rn >= m.rounds.len() {
        return Err(BullBearProgramError::RoundNotFound);
    }
    let j = match find_bet(&m.bets, player, round_nr) {
        Some(j) => j,
        Option::None => {
            return Err(BullBearProgramError::BetNotFound);
        },
    };
    proof {
        let ci = bet_index_of(old(m).bets@, player, round_nr);
        assert(bet_matches(old(m).bets@[ci], player, round_nr));
        if ci != j {
            let lo = if ci < j {
                ci
            } else {
                j as int
            };
            let hi = if ci < j {
                j as int
            } else {
                ci
            };
            assert(!(bet_matches(
                old(m).bets@[lo],
                old(m).bets@[hi].player,
                old(m).bets@[hi].round_nr,
            )));
        }
        assert(j == bet_index_of(old(m).bets@, player, round_nr));
    }
    if token != m.game.token {
        return Err(BullBearProgramError::InvalidMintAccount);
    }
    let mut round = m.rounds[rn];
    if round.status != RoundStatus::Ended {
        return Err(BullBearProgramError::CurrentRoundNotEnded);
    }
    let mut bet = m.bets[j];
    if round.result != bet.prediction {
        return Err(BullBearProgramError::NoPrizeClaimable);
    }
    if bet.claimed {
        return Err(BullBearProgramError::PrizeAlreadyClaimed);
    }
    proof {
        assert(old(m).round_wf(rn as int));
        assert(old(m).bet_wf(j as int));
    }
    let pool: u64 = round.total_up + round.total_down;
    let winning: u64 = if round.result == PriceMovement::Up {
        round.total_up
    } else {
        round.total_down
    };
    let ghost side = round.result;
    let ghost a = bet.amount as int;
    let ghost pp = pool as int;
    let ghost ww = winning as int;
    let ghost uu = crate::market::unclaimed_total(old(m).bets@, round_nr, side);
    let ghost v = round.vault as int;
    proof {
        lemma_side_ge_bet(old(m).bets@, j as int, round_nr, side);
        lemma_unclaimed_ge_bet(old(m).bets@, j as int, round_nr, side);
        lemma_unclaimed_le_side(old(m).bets@, round_nr, side);
        lemma_sums_nonneg(old(m).bets@, round_nr, side);
        assert(a <= ww && a <= uu && uu <= ww);
        assert(v * ww >= uu * pp);
        assert(a * pp <= u64::MAX * u64::MAX) by (nonlinear_arith)
            requires
                0 <= a <= u64::MAX,
                0 <= pp <= u64::MAX,
        ;
    }
    let prize: u64 = if winning == 0 {
        0
    } else {
        proof {
            let q = a * pp / ww;
            let md = (a * pp) % ww;
            lemma_fundamental_div_mod(a * pp, ww);
            lemma_mod_division_less_than_divisor(a * pp, ww);
            assert(0 <= q <= pp) by (nonlinear_arith)
                requires
                    0 < ww,
                    0 <= a <= ww,
                    0 <= pp,
                    a * pp == ww * q + md,
                    0 <= md < ww,
            ;
        }
        let wide: u128 = (bet.amount as u128) * (pool as u128);
        (wide / (winning as u128)) as u64
    };
    proof {
        let q = payout_amount(bet.amount, winning, pp);
        if ww > 0 {
            lemma_fundamental_div_mod(a * pp, ww);
            lemma_mod_division_less_than_divisor(a * pp, ww);
            assert(ww * q + (a * pp) % ww == a * pp);
            assert(q <= v) by (nonlinear_arith)
                requires
                    0 < ww,
                    ww * q <= a * pp,
                    0 <= a <= uu,
                    0 <= pp,
                    v * ww >= uu * pp,
            ;
        } else {
            assert(uu == 0);
            assert(a == 0);
            assert(q == 0);
            assert(v >= 0);
        }
        assert(prize == q);
    }
    round.vault = round.vault - prize;
    m.rounds.set(rn, round);
    bet.claimed = true;
    m.bets.set(j, bet);
    m.paid_out = Ghost(m.paid_out@ + prize);
    proof {
        let pre = *old(m);
        let rni = round_nr as int;
        let b2 = m.bets@[j as int];
        let q = prize as int;
        lemma_vaults_total_update(pre.rounds@, rni, m.rounds@[rni]);
        assert forall|i: int| 0 <= i < m.rounds@.len() implies m.round_wf(i) by {
            assert(pre.round_wf(i));
            let irn = pre.rounds@[i].round_nr;
            lemma_side_total_update(pre.bets@, j as int, b2, irn, PriceMovement::Up);
            lemma_side_total_update(pre.bets@, j as int, b2, irn, PriceMovement::Down);
            lemma_bet_count_update(pre.bets@, j as int, b2, irn);
            lemma_unclaimed_total_claim(pre.bets@, j as int, b2, irn, PriceMovement::Up);
            lemma_unclaimed_total_claim(pre.bets@, j as int, b2, irn, PriceMovement::Down);
            if i != rni {
                assert(m.rounds@[i] == pre.rounds@[i]);
            } else {
                let uu2 = crate::market::unclaimed_total(m.bets@, round_nr, side);
                assert(uu2 == uu - a);
                assert((round.vault as int) * ww >= uu2 * pp) by (nonlinear_arith)
                    requires
                        round.vault as int == pre.rounds@[rni].vault - q,
                        ww * q <= a * pp || (ww == 0 && q == 0 && uu == a),
                        uu2 == uu - a,
                        (pre.rounds@[rni].vault as int) * ww >= uu * pp,
                        0 <= pp,
                        0 <= a,
                        0 <= q,
                ;
            }
        }
        assert forall|jj: int| 0 <= jj < m.bets@.len() implies m.bet_wf(jj) by {
            assert(pre.bet_wf(jj));
            let brn = pre.bets@[jj].round_nr as int;
            if brn != rni {
                assert(m.rounds@[brn] == pre.rounds@[brn]);
            }
            assert(m.bets@[jj].round_nr == pre.bets@[jj].round_nr && m.bets@[jj].prediction
                == pre.bets@[jj].prediction);
        }
        assert forall|x: int, y: int| 0 <= x < y < m.bets@.len() implies !(bet_matches(
            #[trigger] m.bets@[x],
            m.bets@[y].player,
            (#[trigger] m.bets@[y]).round_nr,
        )) by {
            assert(m.bets@[x].player == pre.bets@[x].player && m.bets@[x].round_nr
                == pre.bets@[x].round_nr);
            assert(m.bets@[y].player == pre.bets@[y].player && m.bets@[y].round_nr
                == pre.bets@[y].round_nr);
            assert(!(bet_matches(pre.bets@[x], pre.bets@[y].player, pre.bets@[y].round_nr)));
        }
    }
    Ok(prize)
}

} // verus!
