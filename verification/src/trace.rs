//! The auction lifecycle as a transition system, and the laws that hold of
//! every reachable state.
//!
//! An [`AuctionEvent`] is one serialized attempt against one auction record,
//! together with the facts of its environment that the record itself does
//! not hold: whether the accompanying value move could be funded, whether
//! the bidder already holds a bid record. [`step`] is what the attempt
//! leaves behind — the updated record when the attempt is permitted, the
//! same record otherwise — and [`run`] folds a whole history. The executable
//! operations in [`crate::lifecycle`] promise in their contracts that they
//! change the auction record exactly as `step` says, so every lemma below
//! speaks about real executions.

use vstd::prelude::*;

use crate::state::Auction;
use crate::state::AuctionStatus;
use crate::state::Identity;

verus! {

/// One serialized attempt against an auction record.
pub enum AuctionEvent {
    /// A `place_bid` attempt. `funds_ok` says whether the bidder's account
    /// could fund the escrow move (enough balance, no overflow of the escrow
    /// account); `already_bid` says whether a bid record for this bidder
    /// already exists.
    Bid { bidder: Identity, amount: u64, now: i64, funds_ok: bool, already_bid: bool },
    /// An `end_auction` attempt. `funds_ok` says whether the asset move to
    /// the winner, if one is owed, could be funded.
    End { now: i64, funds_ok: bool },
    /// A `cancel_auction` attempt by `caller`. `funds_ok` says whether the
    /// asset move back to the seller could be funded.
    Cancel { caller: Identity, funds_ok: bool },
}

/// When an attempt goes through: exactly the success conditions of the
/// corresponding operation.
pub open spec fn event_permitted(a: Auction, e: AuctionEvent) -> bool {
    match e {
        AuctionEvent::Bid { bidder, amount, now, funds_ok, already_bid } => {
            &&& a.status is Active
            &&& now < a.end_time
            &&& amount > a.current_price
            &&& !already_bid
            &&& funds_ok
        },
        AuctionEvent::End { now, funds_ok } => {
            &&& now >= a.end_time
            &&& a.status is Active
            &&& funds_ok
        },
        AuctionEvent::Cancel { caller, funds_ok } => {
            &&& caller == a.authority
            &&& a.status is Active
            &&& funds_ok
        },
    }
}

/// The auction record after one attempt: updated when the attempt is
/// permitted, untouched otherwise.
pub open spec fn step(a: Auction, e: AuctionEvent) -> Auction {
    if event_permitted(a, e) {
        match e {
            AuctionEvent::Bid { bidder, amount, .. } => Auction {
                current_price: amount,
                highest_bidder: Some(bidder),
                ..a
            },
            AuctionEvent::End { .. } => Auction { status: AuctionStatus::Ended, ..a },
            AuctionEvent::Cancel { .. } => Auction { status: AuctionStatus::Cancelled, ..a },
        }
    } else {
        a
    }
}

/// The auction record after a whole history of attempts, oldest first.
pub open spec fn run(a: Auction, events: Seq<AuctionEvent>) -> Auction
    decreases events.len(),
{
    if events.len() == 0 {
        a
    } else {
        run(step(a, events[0]), events.drop_first())
    }
}

/// Whether some attempt in the history is a bid that went through.
pub open spec fn some_bid_succeeds(a: Auction, events: Seq<AuctionEvent>) -> bool
    decreases events.len(),
{
    if events.len() == 0 {
        false
    } else {
        (events[0] is Bid && event_permitted(a, events[0])) || some_bid_succeeds(
            step(a, events[0]),
            events.drop_first(),
        )
    }
}

/// No attempt changes the fields that define the auction: the seller, the
/// asset, the accounts, the size, the minimum, the deadline, the salt.
pub proof fn lemma_run_keeps_listing_fields(a: Auction, events: Seq<AuctionEvent>)
    ensures
        run(a, events).authority == a.authority,
        run(a, events).token_mint == a.token_mint,
        run(a, events).token_account == a.token_account,
        run(a, events).treasury_mint == a.treasury_mint,
        run(a, events).token_size == a.token_size,
        run(a, events).minimum_price == a.minimum_price,
        run(a, events).end_time == a.end_time,
        run(a, events).bump == a.bump,
    decreases events.len(),
{
    if events.len() > 0 {
        lemma_run_keeps_listing_fields(step(a, events[0]), events.drop_first());
    }
}

/// The price floor is invariant: starting from a well-formed auction —
/// `create_auction` starts one at `current_price == minimum_price` — every
/// reachable state still has `current_price >= minimum_price`.
pub proof fn lemma_price_never_below_minimum(a: Auction, events: Seq<AuctionEvent>)
    requires
        a.wf(),
    ensures
        run(a, events).wf(),
    decreases events.len(),
{
    if events.len() > 0 {
        lemma_price_never_below_minimum(step(a, events[0]), events.drop_first());
    }
}

/// The current price never falls along any history.
pub proof fn lemma_price_nondecreasing(a: Auction, events: Seq<AuctionEvent>)
    ensures
        run(a, events).current_price >= a.current_price,
    decreases events.len(),
{
    if events.len() > 0 {
        lemma_price_nondecreasing(step(a, events[0]), events.drop_first());
    }
}

/// Once a highest bidder is on record, one stays on record.
pub proof fn lemma_bidder_stays_present(a: Auction, events: Seq<AuctionEvent>)
    requires
        a.highest_bidder is Some,
    ensures
        run(a, events).highest_bidder is Some,
    decreases events.len(),
{
    if events.len() > 0 {
        lemma_bidder_stays_present(step(a, events[0]), events.drop_first());
    }
}

/// The highest bidder is absent exactly as long as no bid has gone through:
/// starting from a freshly created auction (no bidder on record), the state
/// after any history shows a bidder if and only if the history holds a
/// permitted bid.
pub proof fn lemma_bidder_absent_iff_no_bid(a: Auction, events: Seq<AuctionEvent>)
    requires
        a.highest_bidder is None,
    ensures
        run(a, events).highest_bidder is Some <==> some_bid_succeeds(a, events),
    decreases events.len(),
{
    if events.len() > 0 {
        let a1 = step(a, events[0]);
        if events[0] is Bid && event_permitted(a, events[0]) {
            lemma_bidder_stays_present(a1, events.drop_first());
        } else {
            lemma_bidder_absent_iff_no_bid(a1, events.drop_first());
        }
    }
}

/// Terminal states are frozen: once an auction is `Ended` or `Cancelled`,
/// no history of attempts changes the record at all — in particular not its
/// status, its current price, or its highest bidder.
pub proof fn lemma_terminal_state_frozen(a: Auction, events: Seq<AuctionEvent>)
    requires
        a.is_terminal(),
    ensures
        run(a, events) == a,
    decreases events.len(),
{
    if events.len() > 0 {
        assert(step(a, events[0]) == a);
        lemma_terminal_state_frozen(a, events.drop_first());
        assert(run(a, events) == run(step(a, events[0]), events.drop_first()));
    }
}

/// Successive successful bids strictly increase the price: if a bid for
/// `amount1` goes through, then whatever happens in between, a later bid
/// that goes through on the same auction carries a strictly larger amount.
pub proof fn lemma_successive_bids_strictly_increase(
    a: Auction,
    first: AuctionEvent,
    between: Seq<AuctionEvent>,
    second: AuctionEvent,
)
    requires
        first is Bid,
        second is Bid,
        event_permitted(a, first),
        event_permitted(run(step(a, first), between), second),
    ensures
        second->Bid_amount > first->Bid_amount,
{
    lemma_price_nondecreasing(step(a, first), between);
}

} // verus!
