use vstd::prelude::*;
use vstd::string::StringSliceAdditionalSpecFns;

use crate::errors::BullBearProgramError;
use crate::market::{lemma_wf_frame, Market};
use crate::oracle::{feed_bytes_of, get_feed_id_from_hex, valid_feed_hex};
use crate::states::{Game, Protocol};

verus! {

/// Registers a protocol: the operator's account and the fee every game
/// creator pays into it.
pub fn initialize_protocol(authority: u64, game_fee: u64) -> (p: Protocol)
    ensures
        p == (Protocol { authority, game_fee }),
{
    Protocol { authority, game_fee }
}

/// Why creating a game fails, if it does: the feed identifier must be
/// well-formed, and the creator must be able to pay the protocol's fee.
pub open spec fn initialize_game_outcome(
    protocol: Protocol,
    payer_balance: u64,
    feed_id: Seq<u8>,
) -> Option<BullBearProgramError> {
    if !valid_feed_hex(feed_id) {
        Some(BullBearProgramError::InvalidFeedId)
    } else if payer_balance < protocol.game_fee {
        Some(BullBearProgramError::EscrowFailure)
    } else {
        Option::None
    }
}

/// What a successful game creation returns: a fresh market whose counter
/// and vaults start at zero, plus the creator's balance after the fee.
pub open spec fn initialize_game_ok(
    mkt: Market,
    change: u64,
    protocol: Protocol,
    game_authority: u64,
    payer_balance: u64,
    round_interval: u64,
    feed_id: Seq<u8>,
    token: u64,
) -> bool {
    &&& mkt.protocol == protocol
    &&& mkt.game.game_authority == game_authority
    &&& mkt.game.counter == 0
    &&& mkt.game.round_interval == round_interval
    &&& mkt.game.feed_id@ == feed_bytes_of(feed_id)
    &&& mkt.game.token == token
    &&& mkt.game.vault == 0
    &&& mkt.rounds@.len() == 0
    &&& mkt.bets@.len() == 0
    &&& mkt.deposited@ == 0
    &&& mkt.paid_out@ == 0
    &&& change == payer_balance - protocol.game_fee
}

/// Creates a game under `protocol`. The creator pays the protocol's
/// game-creation fee out of `payer_balance` (an `EscrowFailure` if it does
/// not cover the fee); the change is returned beside the market. There is
/// no authorization beyond paying the fee.
pub fn initialize_game(
    protocol: &Protocol,
    game_authority: u64,
    payer_balance: u64,
    round_interval: u64,
    feed_id: &str,
    token: u64,
) -> (r: Result<(Market, u64), BullBearProgramError>)
    ensures
        match r {
            Ok(pair) => initialize_game_outcome(*protocol, payer_balance, feed_id.spec_bytes())
                is None && pair.0.wf() && initialize_game_ok(
                pair.0,
                pair.1,
                *protocol,
                game_authority,
                payer_balance,
                round_interval,
                feed_id.spec_bytes(),
                token,
            ),
            Err(e) => initialize_game_outcome(*protocol, payer_balance, feed_id.spec_bytes())
                == Some(e),
        },
{
    let feed = get_feed_id_from_hex(feed_id)?;
    if payer_balance < protocol.game_fee {
        return Err(BullBearProgramError::EscrowFailure);
    }
    let change = payer_balance - protocol.game_fee;
    let mkt = Market {
        protocol: *protocol,
        game: Game {
            game_authority,
            counter: 0,
            round_interval,
            feed_id: feed,
            token,
            vault: 0,
        },
        rounds: Vec::new(),
        bets: Vec::new(),
        deposited: Ghost(0int),
        paid_out: Ghost(0int),
    };
    Ok((mkt, change))
}

/// Why an interval update fails, if it does: only the game authority may
/// change the round interval.
pub open spec fn update_interval_outcome(m: Market, caller: u64) -> Option<
    BullBearProgramError,
> {
    if caller != m.game.game_authority {
        Some(BullBearProgramError::SignerNotAuthorized)
    } else {
        Option::None
    }
}

/// The full effect of `update_interval`.
pub open spec fn update_interval_post(
    pre: Market,
    post: Market,
    caller: u64,
    round_interval: u64,
    r: Result<(), BullBearProgramError>,
) -> bool {
    match update_interval_outcome(pre, caller) {
        Some(e) => r == Err::<(), BullBearProgramError>(e) && post == pre,
        Option::None => {
            &&& r == Ok::<(), BullBearProgramError>(())
            &&& post.game == (Game { round_interval, ..pre.game })
            &&& post.protocol == pre.protocol
            &&& post.rounds@ == pre.rounds@
            &&& post.bets@ == pre.bets@
            &&& post.deposited == pre.deposited
            &&& post.paid_out == pre.paid_out
        },
    }
}

/// Sets the game's round interval. Callable by the game authority at any
/// time, also while a round is running; a running round keeps the end time
/// it captured when it started.
pub fn update_interval(m: &mut Market, caller: u64, round_interval: u64) -> (r: Result<
    (),
    BullBearProgramError,
>)
    requires
        old(m).wf(),
    ensures
        final(m).wf(),
        update_interval_post(*old(m), *final(m), caller, round_interval, r),
{
    if caller != m.game.game_authority {
        return Err(BullBearProgramError::SignerNotAuthorized);
    }
    m.game.round_interval = round_interval;
    proof {
        lemma_wf_frame(*old(m), *m);
    }
    Ok(())
}

/// Why a feed update fails, if it does: the new feed identifier must be
/// well-formed.
pub open spec fn update_feed_outcome(feed_id: Seq<u8>) -> Option<BullBearProgramError> {
    if !valid_feed_hex(feed_id) {
        Some(BullBearProgramError::InvalidFeedId)
    } else {
        Option::None
    }
}

/// The full effect of `update_feed`.
pub open spec fn update_feed_post(
    pre: Market,
    post: Market,
    feed_id: Seq<u8>,
    r: Result<(), BullBearProgramError>,
) -> bool {
    match update_feed_outcome(feed_id) {
        Some(e) => r == Err::<(), BullBearProgramError>(e) && post == pre,
        Option::None => {
            &&& r == Ok::<(), BullBearProgramError>(())
            &&& post.game.feed_id@ == feed_bytes_of(feed_id)
            &&& post.game.game_authority == pre.game.game_authority
            &&& post.game.counter == pre.game.counter
            &&& post.game.round_interval == pre.game.round_interval
            &&& post.game.token == pre.game.token
            &&& post.game.vault == pre.game.vault
            &&& post.protocol == pre.protocol
            &&& post.rounds@ == pre.rounds@
            &&& post.bets@ == pre.bets@
            &&& post.deposited == pre.deposited
            &&& post.paid_out == pre.paid_out
        },
    }
}

/// Points the game at another oracle price feed. Nothing beyond a
/// well-formed identifier is checked; in particular, no authority signs
/// off on the change.
pub fn update_feed(m: &mut Market, feed_id: &str) -> (r: Result<(), BullBearProgramError>)
    requires
        old(m).wf(),
    ensures
        final(m).wf(),
        update_feed_post(*old(m), *final(m), feed_id.spec_bytes(), r),
{
    let feed = get_feed_id_from_hex(feed_id)?;
    m.game.feed_id = feed;
    proof {
        lemma_wf_frame(*old(m), *m);
    }
    Ok(())
}

/// Why a withdrawal fails, if it does: the caller must present the game's
/// token, be the game authority, and the game vault must hold something.
pub open spec fn withdraw_funds_outcome(m: Market, caller: u64, token: u64) -> Option<
    BullBearProgramError,
> {
    if token != m.game.token {
        Some(BullBearProgramError::InvalidMintAccount)
    } else if caller != m.game.game_authority {
        Some(BullBearProgramError::SignerNotAuthorized)
    } else if m.game.vault == 0 {
        Some(BullBearProgramError::NothingToWithdraw)
    } else {
        Option::None
    }
}

/// The full effect of `withdraw_funds`.
pub open spec fn withdraw_funds_post(
    pre: Market,
    post: Market,
    caller: u64,
    token: u64,
    r: Result<u64, BullBearProgramError>,
) -> bool {
    match withdraw_funds_outcome(pre, caller, token) {
        Some(e) => r == Err::<u64, BullBearProgramError>(e) && post == pre,
        Option::None => {
            &&& r == Ok::<u64, BullBearProgramError>(pre.game.vault)
            &&& post.game == (Game { vault: 0u64, ..pre.game })
            &&& post.protocol == pre.protocol
            &&& post.rounds@ == pre.rounds@
            &&& post.bets@ == pre.bets@
            &&& post.deposited == pre.deposited
            &&& post.paid_out@ == pre.paid_out@ + pre.game.vault
        },
    }
}

/// Moves the entire balance of the game vault to the game authority and
/// returns the amount moved. Only refunded value from rounds that ended
/// without a price change ever accumulates there, so no still-claimable
/// prize can be withdrawn this way.
pub fn withdraw_funds(m: &mut Market, caller: u64, token: u64) -> (r: Result<
    u64,
    BullBearProgramError,
>)
    requires
        old(m).wf(),
    ensures
        final(m).wf(),
        withdraw_funds_post(*old(m), *final(m), caller, token, r),
{
    if token != m.game.token {
        return Err(BullBearProgramError::InvalidMintAccount);
    }
    if caller != m.game.game_authority {
        return Err(BullBearProgramError::SignerNotAuthorized);
    }
    let amount = m.game.vault;
    if amount == 0 {
        return Err(BullBearProgramError::NothingToWithdraw);
    }
    m.game.vault = 0;
    m.paid_out = Ghost(m.paid_out@ + amount);
    proof {
        lemma_wf_frame(*old(m), *m);
    }
    Ok(amount)
}

} // verus!
