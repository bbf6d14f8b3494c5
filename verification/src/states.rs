use vstd::prelude::*;

verus! {

/// Default staleness bound for oracle readings, in seconds. A price
/// observation older than this is rejected wherever no longer bound applies.
pub const MAXIMUM_AGE: u64 = 60;

/// Whether bets are currently accepted by a round. `Open` is valid only
/// while the round itself is `Active`.
#[derive(Clone, Copy, Debug, PartialEq, Eq, Structural)]
pub enum BettingStatus {
    Open,
    Closed,
}

/// A price-movement value. It serves both as a player's prediction
/// (only `Up` and `Down` are valid there) and as a round's resolved
/// outcome (`Up`, `Down`, or `NoChange`; `Unset` while unresolved).
#[derive(Clone, Copy, Debug, PartialEq, Eq, Structural)]
pub enum PriceMovement {
    Unset,
    Up,
    Down,
    NoChange,
}

/// Lifecycle state of a round. Transitions only ever move
/// `Inactive -> Active -> Ended`.
#[derive(Clone, Copy, Debug, PartialEq, Eq, Structural)]
pub enum RoundStatus {
    Active,
    Inactive,
    Ended,
}

/// The protocol registry: the operator's account and the fee a game
/// creator pays into it.
#[derive(Clone, Copy, Debug, PartialEq, Eq, Structural)]
pub struct Protocol {
    /// Account that operates the protocol and collects game-creation fees.
    pub authority: u64,
    /// Fee, in the ledger's native unit, paid once per game creation.
    pub game_fee: u64,
}

/// A long-lived market definition. A game sequences rounds over one
/// (token, price feed) pair and owns a persistent custody vault.
///
/// Accounts and tokens of the host ledger are identified here by plain
/// integers; custody vaults are carried as their balances, since the
/// ledger's transfer primitive is an external collaborator whose effect
/// on balances is all the engine depends on.
pub struct Game {
    /// Account that administers this game's rounds.
    pub game_authority: u64,
    /// Number of rounds ended so far; also the round number of the
    /// next round to create, and the sole selector of the current round.
    pub counter: u16,
    /// Length of a round in seconds.
    pub round_interval: u64,
    /// The 32-byte identifier of the oracle price feed this game follows.
    pub feed_id: Vec<u8>,
    /// The fungible token this game escrows.
    pub token: u64,
    /// Balance of the game's own custody vault. It holds only value
    /// refunded from rounds that ended without a price change.
    pub vault: u64,
}

/// One betting epoch. A round captures its own price window at start
/// and end, aggregates stakes per side, and owns an escrow vault.
#[derive(Clone, Copy, Debug, PartialEq, Eq, Structural)]
pub struct Round {
    /// Equals the game's counter at creation time; binds the round to
    /// its slot in the game's sequence of rounds.
    pub round_nr: u16,
    /// Wall-clock second at which the round started; zero while unset.
    pub start_time: i64,
    /// Wall-clock second at or after which the round may end.
    pub end_time: i64,
    /// Oracle price captured when the round started.
    pub start_price: i64,
    /// Oracle price captured when the round ended.
    pub end_price: i64,
    /// Sum of all stakes predicting `Up`.
    pub total_up: u64,
    /// Sum of all stakes predicting `Down`.
    pub total_down: u64,
    /// Whether bets are currently accepted.
    pub betting: BettingStatus,
    /// The resolved outcome; `Unset` until the round has ended.
    pub result: PriceMovement,
    /// Lifecycle state.
    pub status: RoundStatus,
    /// Number of bets placed in this round.
    pub num_bets: u16,
    /// Balance of the round's escrow vault.
    pub vault: u64,
}

/// One player's stake in one round. At most one bet exists per
/// (player, round) pair; `amount` is immutable after creation and
/// `claimed` flips false to true at most once.
#[derive(Clone, Copy, Debug, PartialEq, Eq, Structural)]
pub struct Bet {
    /// The staking player's account.
    pub player: u64,
    /// Round number of the round the stake was placed in.
    pub round_nr: u16,
    /// The predicted movement; always `Up` or `Down`.
    pub prediction: PriceMovement,
    /// The staked amount, moved into the round vault when the bet was placed.
    pub amount: u64,
    /// Whether the prize for this bet has been paid out.
    pub claimed: bool,
}

} // verus!
