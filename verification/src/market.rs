use vstd::prelude::*;

use crate::states::{Bet, BettingStatus, Game, PriceMovement, Protocol, Round, RoundStatus};

verus! {

/// The staked amount that one bet contributes to the running total of
/// one side of one round.
pub open spec fn bet_side_contrib(b: Bet, round_nr: u16, side: PriceMovement) -> int {
    if b.round_nr == round_nr && b.prediction == side {
        b.amount as int
    } else {
        0
    }
}

/// Sum of the staked amounts of all bets on `side` of round `round_nr`.
pub open spec fn side_total(bets: Seq<Bet>, round_nr: u16, side: PriceMovement) -> int
    decreases bets.len(),
{
    if bets.len() == 0 {
        0
    } else {
        side_total(bets.drop_last(), round_nr, side) + bet_side_contrib(
            bets.last(),
            round_nr,
            side,
        )
    }
}

/// Sum of the staked amounts of the not-yet-claimed bets on `side` of
/// round `round_nr`.
pub open spec fn unclaimed_total(bets: Seq<Bet>, round_nr: u16, side: PriceMovement) -> int
    decreases bets.len(),
{
    if bets.len() == 0 {
        0
    } else {
        unclaimed_total(bets.drop_last(), round_nr, side) + if !bets.last().claimed {
            bet_side_contrib(bets.last(), round_nr, side)
        } else {
            0
        }
    }
}

/// Number of bets placed in round `round_nr`.
pub open spec fn bet_count_for(bets: Seq<Bet>, round_nr: u16) -> int
    decreases bets.len(),
{
    if bets.len() == 0 {
        0
    } else {
        bet_count_for(bets.drop_last(), round_nr) + if bets.last().round_nr == round_nr {
            1int
        } else {
            0int
        }
    }
}

/// Sum of the escrow-vault balances of all rounds.
pub open spec fn vaults_total(rounds: Seq<Round>) -> int
    decreases rounds.len(),
{
    if rounds.len() == 0 {
        0
    } else {
        vaults_total(rounds.drop_last()) + rounds.last().vault as int
    }
}

/// Whether a bet belongs to the given (player, round) pair.
pub open spec fn bet_matches(b: Bet, player: u64, round_nr: u16) -> bool {
    b.player == player && b.round_nr == round_nr
}

/// Whether some bet for the given (player, round) pair exists.
pub open spec fn has_bet(bets: Seq<Bet>, player: u64, round_nr: u16) -> bool {
    exists|j: int| 0 <= j < bets.len() && bet_matches(#[trigger] bets[j], player, round_nr)
}

pub proof fn lemma_side_total_push(bets: Seq<Bet>, b: Bet, round_nr: u16, side: PriceMovement)
    ensures
        side_total(bets.push(b), round_nr, side) == side_total(bets, round_nr, side)
            + bet_side_contrib(b, round_nr, side),
{
    assert(bets.push(b).drop_last() =~= bets);
    assert(bets.push(b).last() == b);
}

pub proof fn lemma_unclaimed_total_push(bets: Seq<Bet>, b: Bet, round_nr: u16, side: PriceMovement)
    requires
        !b.claimed,
    ensures
        unclaimed_total(bets.push(b), round_nr, side) == unclaimed_total(bets, round_nr, side)
            + bet_side_contrib(b, round_nr, side),
{
    assert(bets.push(b).drop_last() =~= bets);
    assert(bets.push(b).last() == b);
}

pub proof fn lemma_bet_count_push(bets: Seq<Bet>, b: Bet, round_nr: u16)
    ensures
        bet_count_for(bets.push(b), round_nr) == bet_count_for(bets, round_nr) + if b.round_nr
            == round_nr {
            1int
        } else {
            0int
        },
{
    assert(bets.push(b).drop_last() =~= bets);
    assert(bets.push(b).last() == b);
}

pub proof fn lemma_side_total_update(
    bets: Seq<Bet>,
    j: int,
    b2: Bet,
    round_nr: u16,
    side: PriceMovement,
)
    requires
        0 <= j < bets.len(),
        b2.round_nr == bets[j].round_nr,
        b2.prediction == bets[j].prediction,
        b2.amount == bets[j].amount,
    ensures
        side_total(bets.update(j, b2), round_nr, side) == side_total(bets, round_nr, side),
    decreases bets.len(),
{
    let u = bets.update(j, b2);
    if j == bets.len() - 1 {
        assert(u.drop_last() =~= bets.drop_last());
        assert(u.last() == b2);
    } else {
        assert(u.drop_last() =~= bets.drop_last().update(j, b2));
        assert(u.last() == bets.last());
        lemma_side_total_update(bets.drop_last(), j, b2, round_nr, side);
    }
}

pub proof fn lemma_bet_count_update(bets: Seq<Bet>, j: int, b2: Bet, round_nr: u16)
    requires
        0 <= j < bets.len(),
        b2.round_nr == bets[j].round_nr,
    ensures
        bet_count_for(bets.update(j, b2), round_nr) == bet_count_for(bets, round_nr),
    decreases bets.len(),
{
    let u = bets.update(j, b2);
    if j == bets.len() - 1 {
        assert(u.drop_last() =~= bets.drop_last());
        assert(u.last() == b2);
    } else {
        assert(u.drop_last() =~= bets.drop_last().update(j, b2));
        assert(u.last() == bets.last());
        lemma_bet_count_update(bets.drop_last(), j, b2, round_nr);
    }
}

/// Marking one unclaimed bet claimed removes exactly its stake from the
/// unclaimed total of its own (round, side) and nothing from any other.
pub proof fn lemma_unclaimed_total_claim(
    bets: Seq<Bet>,
    j: int,
    b2: Bet,
    round_nr: u16,
    side: PriceMovement,
)
    requires
        0 <= j < bets.len(),
        b2.round_nr == bets[j].round_nr,
        b2.prediction == bets[j].prediction,
        b2.amount == bets[j].amount,
        !bets[j].claimed,
        b2.claimed,
    ensures
        unclaimed_total(bets.update(j, b2), round_nr, side) == unclaimed_total(
            bets,
            round_nr,
            side,
        ) - bet_side_contrib(bets[j], round_nr, side),
    decreases bets.len(),
{
    let u = bets.update(j, b2);
    if j == bets.len() - 1 {
        assert(u.drop_last() =~= bets.drop_last());
        assert(u.last() == b2);
    } else {
        assert(u.drop_last() =~= bets.drop_last().update(j, b2));
        assert(u.last() == bets.last());
        lemma_unclaimed_total_claim(bets.drop_last(), j, b2, round_nr, side);
    }
}

pub proof fn lemma_sums_nonneg(bets: Seq<Bet>, round_nr: u16, side: PriceMovement)
    ensures
        side_total(bets, round_nr, side) >= 0,
        unclaimed_total(bets, round_nr, side) >= 0,
        bet_count_for(bets, round_nr) >= 0,
    decreases bets.len(),
{
    if bets.len() > 0 {
        lemma_sums_nonneg(bets.drop_last(), round_nr, side);
    }
}

/// Any single unclaimed bet's stake is at most the unclaimed total of its
/// (round, side).
pub proof fn lemma_unclaimed_ge_bet(bets: Seq<Bet>, j: int, round_nr: u16, side: PriceMovement)
    requires
        0 <= j < bets.len(),
        bets[j].round_nr == round_nr,
        bets[j].prediction == side,
        !bets[j].claimed,
    ensures
        unclaimed_total(bets, round_nr, side) >= bets[j].amount,
    decreases bets.len(),
{
    lemma_sums_nonneg(bets.drop_last(), round_nr, side);
    if j < bets.len() - 1 {
        lemma_unclaimed_ge_bet(bets.drop_last(), j, round_nr, side);
    }
}

/// Any single bet's stake is at most the side total of its (round, side).
pub proof fn lemma_side_ge_bet(bets: Seq<Bet>, j: int, round_nr: u16, side: PriceMovement)
    requires
        0 <= j < bets.len(),
        bets[j].round_nr == round_nr,
        bets[j].prediction == side,
    ensures
        side_total(bets, round_nr, side) >= bets[j].amount,
    decreases bets.len(),
{
    lemma_sums_nonneg(bets.drop_last(), round_nr, side);
    if j < bets.len() - 1 {
        lemma_side_ge_bet(bets.drop_last(), j, round_nr, side);
    }
}

pub proof fn lemma_unclaimed_le_side(bets: Seq<Bet>, round_nr: u16, side: PriceMovement)
    ensures
        unclaimed_total(bets, round_nr, side) <= side_total(bets, round_nr, side),
    decreases bets.len(),
{
    if bets.len() > 0 {
        lemma_unclaimed_le_side(bets.drop_last(), round_nr, side);
    }
}

pub proof fn lemma_vaults_total_push(rounds: Seq<Round>, r: Round)
    ensures
        vaults_total(rounds.push(r)) == vaults_total(rounds) + r.vault,
{
    assert(rounds.push(r).drop_last() =~= rounds);
    assert(rounds.push(r).last() == r);
}

pub proof fn lemma_vaults_total_update(rounds: Seq<Round>, j: int, r2: Round)
    requires
        0 <= j < rounds.len(),
    ensures
        vaults_total(rounds.update(j, r2)) == vaults_total(rounds) - rounds[j].vault + r2.vault,
    decreases rounds.len(),
{
    let u = rounds.update(j, r2);
    if j == rounds.len() - 1 {
        assert(u.drop_last() =~= rounds.drop_last());
        assert(u.last() == r2);
    } else {
        assert(u.drop_last() =~= rounds.drop_last().update(j, r2));
        assert(u.last() == rounds.last());
        lemma_vaults_total_update(rounds.drop_last(), j, r2);
    }
}

pub proof fn lemma_vaults_total_nonneg(rounds: Seq<Round>)
    ensures
        vaults_total(rounds) >= 0,
    decreases rounds.len(),
{
    if rounds.len() > 0 {
        lemma_vaults_total_nonneg(rounds.drop_last());
    }
}

/// One game of the prediction market with everything it owns: the protocol
/// it was registered under, its rounds and their escrow vaults, and every
/// bet ever placed in it. The two ghost fields account for all value that
/// ever crossed the market's boundary, so that conservation of value is
/// part of well-formedness.
pub struct Market {
    /// The protocol registry this game was created under.
    pub protocol: Protocol,
    /// The game definition, including its own vault balance.
    pub game: Game,
    /// All rounds created so far; the round with number `n` sits at index `n`.
    pub rounds: Vec<Round>,
    /// All bets ever placed, across all rounds.
    pub bets: Vec<Bet>,
    /// Total token value ever moved into the market's vaults by players.
    pub deposited: Ghost<int>,
    /// Total token value ever paid out of the market's vaults, by prize
    /// claims and by game-vault withdrawals.
    pub paid_out: Ghost<int>,
}

impl Market {
    /// Round number of the current round: the one the game's counter
    /// selects, whether or not it has been created yet.
    pub open spec fn cur(self) -> int {
        self.game.counter as int
    }

    /// Whether the current round has been created.
    pub open spec fn has_current_round(self) -> bool {
        self.cur() < self.rounds@.len()
    }

    /// The current round.
    pub open spec fn current_round(self) -> Round {
        self.rounds@[self.cur()]
    }

    /// Well-formedness of the round at index `i`: its aggregates equal the
    /// sums over the bets, its state machine is in a legal configuration,
    /// and its vault covers what can still be claimed from it.
    pub open spec fn round_wf(self, i: int) -> bool {
        let r = self.rounds@[i];
        let pool = r.total_up + r.total_down;
        &&& r.round_nr == i
        &&& i < self.cur() ==> r.status == RoundStatus::Ended
        &&& i >= self.cur() ==> r.status != RoundStatus::Ended
        &&& r.total_up == side_total(self.bets@, r.round_nr, PriceMovement::Up)
        &&& r.total_down == side_total(self.bets@, r.round_nr, PriceMovement::Down)
        &&& r.num_bets == bet_count_for(self.bets@, r.round_nr)
        &&& r.betting == BettingStatus::Open ==> r.status == RoundStatus::Active
        &&& r.status != RoundStatus::Ended ==> r.result == PriceMovement::Unset && r.vault == pool
        &&& r.status == RoundStatus::Ended ==> r.result != PriceMovement::Unset && pool
            <= u64::MAX
        &&& r.status == RoundStatus::Ended && r.result == PriceMovement::NoChange ==> r.vault == 0
        &&& r.status == RoundStatus::Ended && r.result == PriceMovement::Up ==> r.vault
            * r.total_up >= unclaimed_total(self.bets@, r.round_nr, PriceMovement::Up) * pool
        &&& r.status == RoundStatus::Ended && r.result == PriceMovement::Down ==> r.vault
            * r.total_down >= unclaimed_total(self.bets@, r.round_nr, PriceMovement::Down) * pool
    }

    /// Well-formedness of the bet at index `j`: it references an existing
    /// round, predicts a real movement, and can only be claimed against a
    /// matching, ended round.
    pub open spec fn bet_wf(self, j: int) -> bool {
        let b = self.bets@[j];
        &&& b.round_nr < self.rounds@.len()
        &&& (b.prediction == PriceMovement::Up || b.prediction == PriceMovement::Down)
        &&& b.claimed ==> self.rounds@[b.round_nr as int].status == RoundStatus::Ended
            && self.rounds@[b.round_nr as int].result == b.prediction
    }

    /// Conservation of value: everything players ever deposited is either
    /// still in some vault of the market or was paid out by a claim or a
    /// withdrawal.
    pub open spec fn conservation(self) -> bool {
        &&& self.deposited@ == self.paid_out@ + self.game.vault + vaults_total(self.rounds@)
        &&& self.paid_out@ >= 0
    }

    /// Well-formedness of the whole market.
    pub open spec fn wf(self) -> bool {
        &&& self.game.feed_id@.len() == 32
        &&& self.cur() <= self.rounds@.len() <= self.cur() + 1
        &&& forall|i: int| 0 <= i < self.rounds@.len() ==> self.round_wf(i)
        &&& forall|j: int| 0 <= j < self.bets@.len() ==> self.bet_wf(j)
        &&& forall|j: int, k: int|
            0 <= j < k < self.bets@.len() ==> !(bet_matches(
                #[trigger] self.bets@[j],
                self.bets@[k].player,
                (#[trigger] self.bets@[k]).round_nr,
            ))
        &&& self.conservation()
    }
}

/// A round that no bet references has zero sums.
pub proof fn lemma_no_bets_sums_zero(bets: Seq<Bet>, round_nr: u16, side: PriceMovement)
    requires
        forall|j: int| 0 <= j < bets.len() ==> (#[trigger] bets[j]).round_nr != round_nr,
    ensures
        side_total(bets, round_nr, side) == 0,
        unclaimed_total(bets, round_nr, side) == 0,
        bet_count_for(bets, round_nr) == 0,
    decreases bets.len(),
{
    if bets.len() > 0 {
        lemma_no_bets_sums_zero(bets.drop_last(), round_nr, side);
    }
}

/// Replacing the current round with one that is itself well formed, while
/// leaving the bets and the counter alone, preserves well-formedness as a
/// whole; the caller re-establishes conservation itself.
pub proof fn lemma_wf_replace_current(pre: Market, post: Market)
    requires
        pre.wf(),
        pre.has_current_round(),
        post.bets@ == pre.bets@,
        post.game.counter == pre.game.counter,
        post.game.feed_id@.len() == 32,
        post.rounds@ == pre.rounds@.update(pre.cur(), post.rounds@[pre.cur()]),
        post.round_wf(pre.cur()),
        post.conservation(),
    ensures
        post.wf(),
{
    assert forall|i: int| 0 <= i < post.rounds@.len() implies post.round_wf(i) by {
        if i != pre.cur() {
            assert(pre.round_wf(i));
            assert(post.rounds@[i] == pre.rounds@[i]);
        }
    }
    assert forall|j: int| 0 <= j < post.bets@.len() implies post.bet_wf(j) by {
        assert(pre.bet_wf(j));
        let rn = pre.bets@[j].round_nr as int;
        if rn == pre.cur() {
            assert(pre.round_wf(rn));
        } else {
            assert(post.rounds@[rn] == pre.rounds@[rn]);
        }
    }
    assert forall|j: int, k: int| 0 <= j < k < post.bets@.len() implies !(bet_matches(
        #[trigger] post.bets@[j],
        post.bets@[k].player,
        (#[trigger] post.bets@[k]).round_nr,
    )) by {
        assert(!(bet_matches(pre.bets@[j], pre.bets@[k].player, pre.bets@[k].round_nr)));
    }
}

/// A change that leaves the rounds, the bets, and the round counter alone
/// preserves every well-formedness clause except conservation, which the
/// caller re-establishes itself.
pub proof fn lemma_wf_frame(pre: Market, post: Market)
    requires
        pre.wf(),
        post.rounds@ == pre.rounds@,
        post.bets@ == pre.bets@,
        post.game.counter == pre.game.counter,
        post.game.feed_id@.len() == 32,
        post.conservation(),
    ensures
        post.wf(),
{
    assert forall|i: int| 0 <= i < post.rounds@.len() implies post.round_wf(i) by {
        assert(pre.round_wf(i));
    }
    assert forall|j: int| 0 <= j < post.bets@.len() implies post.bet_wf(j) by {
        assert(pre.bet_wf(j));
    }
    assert forall|j: int, k: int| 0 <= j < k < post.bets@.len() implies !(bet_matches(
        #[trigger] post.bets@[j],
        post.bets@[k].player,
        (#[trigger] post.bets@[k]).round_nr,
    )) by {
        assert(!(bet_matches(pre.bets@[j], pre.bets@[k].player, pre.bets@[k].round_nr)));
    }
}

/// Finds the index of the bet of `player` in round `round_nr`, if one exists.
pub fn find_bet(bets: &Vec<Bet>, player: u64, round_nr: u16) -> (r: Option<usize>)
    ensures
        match r {
            Some(j) => j < bets@.len() && bet_matches(bets@[j as int], player, round_nr),
            Option::None => !has_bet(bets@, player, round_nr),
        },
{
    let mut i: usize = 0;
    while i < bets.len()
        invariant
            i <= bets@.len(),
            forall|k: int| 0 <= k < i ==> !bet_matches(#[trigger] bets@[k], player, round_nr),
        decreases bets@.len() - i,
    {
        let b = bets[i];
        if b.player == player && b.round_nr == round_nr {
            return Some(i);
        }
        i += 1;
    }
    Option::None
}

} // verus!
