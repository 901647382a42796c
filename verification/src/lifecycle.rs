//! The five lifecycle operations.
//!
//! Each operation is one serialized, all-or-nothing unit of work: it
//! validates in a fixed order, performs at most one escrow transfer, and
//! only then mutates records. Every failure — a rule violation or a refused
//! transfer — leaves every record and every account exactly as it was. The
//! caller identity in each context is assumed authenticated by the
//! surrounding system, and the account facts in each `requires` are the
//! checks that system makes when it resolves the named accounts, before the
//! engine runs.

use vstd::prelude::*;

use crate::escrow::TransferError;
use crate::escrow::transfer;
use crate::state::Auction;
use crate::state::AuctionHouse;
use crate::state::AuctionHouseError;
use crate::state::AuctionStatus;
use crate::state::Bid;
use crate::state::Identity;
use crate::state::TokenAccount;
use crate::trace::AuctionEvent;
use crate::trace::event_permitted;
use crate::trace::step;

verus! {

/// Everything that can make an operation abort. Every abort is total: no
/// record and no account has changed.
#[derive(Clone, Copy, PartialEq, Eq, Structural, Debug)]
pub enum OperationError {
    /// The engine's own validation rejected the operation.
    Rejected(AuctionHouseError),
    /// The escrow transfer primitive refused the value move.
    TransferFailed(TransferError),
    /// The store already holds a bid record for this (auction, bidder)
    /// pair: a bidder bids at most once per auction.
    DuplicateBid,
}

/// The accounts `initialize_auction_house` reads: the address the
/// configuration record will live at, the authority that will own it, the
/// settlement currency, the addresses of the two escrow-holding accounts
/// the house will control, and where withdrawn fees go.
pub struct InitializeAuctionHouse {
    pub auction_house: Identity,
    pub authority: Identity,
    pub treasury_mint: Identity,
    pub auction_house_fee_account: Identity,
    pub auction_house_treasury: Identity,
    pub fee_withdrawal_destination: Identity,
}

/// The accounts `create_auction` reads: the seller (the authenticated
/// caller), the asset kind, the seller's asset-holding account, and the
/// settlement currency bids will be paid in.
pub struct CreateAuction {
    pub authority: Identity,
    pub token_mint: Identity,
    pub token_account: TokenAccount,
    pub treasury_mint: Identity,
}

/// The records and accounts `place_bid` works on: the auction record and
/// its address, the bidder (the authenticated caller), the bidder's
/// settlement-currency account, and the auction's settlement-currency
/// escrow account.
pub struct PlaceBid {
    pub auction: Auction,
    pub auction_key: Identity,
    pub bidder: Identity,
    pub bidder_token_account: TokenAccount,
    pub auction_token_account: TokenAccount,
}

/// The records and accounts `end_auction` works on: the auction record, the
/// escrow account holding the listed asset, and the winner's asset-receiving
/// account (read only when a winner is on record).
pub struct EndAuction {
    pub auction: Auction,
    pub auction_token_account: TokenAccount,
    pub bidder_token_account: TokenAccount,
}

/// The records and accounts `cancel_auction` works on: the auction record,
/// the escrow account holding the listed asset, the seller's asset-receiving
/// account, and the caller asking for the cancellation.
pub struct CancelAuction {
    pub auction: Auction,
    pub auction_token_account: TokenAccount,
    pub owner_token_account: TokenAccount,
    pub authority: Identity,
}

/// Exactly when and why `place_bid` aborts, in validation order; `None`
/// means the bid goes through. `bidder_balance` and `escrow_balance` are the
/// balances of the bidder's account and of the auction's escrow account.
pub open spec fn bid_failure(
    a: Auction,
    now: i64,
    bid_amount: u64,
    bid_exists: bool,
    bidder_balance: u64,
    escrow_balance: u64,
) -> Option<OperationError> {
    if !(a.status is Active) {
        Some(OperationError::Rejected(AuctionHouseError::AuctionNotActive))
    } else if now >= a.end_time {
        Some(OperationError::Rejected(AuctionHouseError::AuctionEnded))
    } else if bid_amount <= a.current_price {
        Some(OperationError::Rejected(AuctionHouseError::BidTooLow))
    } else if bid_exists {
        Some(OperationError::DuplicateBid)
    } else if bidder_balance < bid_amount {
        Some(OperationError::TransferFailed(TransferError::InsufficientFunds))
    } else if escrow_balance + bid_amount > u64::MAX {
        Some(OperationError::TransferFailed(TransferError::RecipientOverflow))
    } else {
        None
    }
}

/// Exactly when and why `end_auction` aborts; `None` means it goes through.
/// The asset move is owed only when a winner is on record, so the balance
/// checks apply only then.
pub open spec fn end_failure(
    a: Auction,
    now: i64,
    escrow_asset_balance: u64,
    winner_balance: u64,
) -> Option<OperationError> {
    if now < a.end_time {
        Some(OperationError::Rejected(AuctionHouseError::AuctionNotEnded))
    } else if !(a.status is Active) {
        Some(OperationError::Rejected(AuctionHouseError::AuctionNotActive))
    } else if a.highest_bidder is Some && escrow_asset_balance < a.token_size {
        Some(OperationError::TransferFailed(TransferError::InsufficientFunds))
    } else if a.highest_bidder is Some && winner_balance + a.token_size > u64::MAX {
        Some(OperationError::TransferFailed(TransferError::RecipientOverflow))
    } else {
        None
    }
}

/// Exactly when and why `cancel_auction` aborts; `None` means it goes
/// through.
pub open spec fn cancel_failure(
    a: Auction,
    caller: Identity,
    escrow_asset_balance: u64,
    seller_balance: u64,
) -> Option<OperationError> {
    if caller != a.authority {
        Some(OperationError::Rejected(AuctionHouseError::Unauthorized))
    } else if !(a.status is Active) {
        Some(OperationError::Rejected(AuctionHouseError::AuctionNotActive))
    } else if escrow_asset_balance < a.token_size {
        Some(OperationError::TransferFailed(TransferError::InsufficientFunds))
    } else if seller_balance + a.token_size > u64::MAX {
        Some(OperationError::TransferFailed(TransferError::RecipientOverflow))
    } else {
        None
    }
}

/// Mutual exclusion of equal bids: two `place_bid` attempts carrying the
/// same amount race against the same auction; the store serializes them, so
/// one runs first. If the first goes through, then the second — whoever the
/// bidder, whatever the state of the accounts, as long as it arrives before
/// the deadline — is rejected with exactly `BidTooLow`: the price it would
/// have to beat is now its own amount. With [`place_bid`]'s contract this
/// says exactly one of the two calls succeeds.
pub proof fn lemma_equal_bid_rejected_after_success(
    a: Auction,
    first: AuctionEvent,
    second_now: i64,
    amount: u64,
    second_bid_exists: bool,
    second_bidder_balance: u64,
    second_escrow_balance: u64,
)
    requires
        first matches AuctionEvent::Bid { amount: first_amount, .. } && first_amount == amount,
        event_permitted(a, first),
        second_now < a.end_time,
    ensures
        bid_failure(
            step(a, first),
            second_now,
            amount,
            second_bid_exists,
            second_bidder_balance,
            second_escrow_balance,
        ) == Some(OperationError::Rejected(AuctionHouseError::BidTooLow)),
{
}

/// Creates the house configuration record for `ctx.authority`, plus the
/// two zero-balance escrow-holding accounts — fee account and treasury —
/// whose controlling authority is the configuration record itself, not the
/// human authority. Pure bookkeeping, every field taken verbatim from the
/// context and the parameters; the store rejects a second configuration for
/// the same authority by its create-uniqueness, so nothing here fails. Fee
/// basis points are stored unvalidated, as the configuration contract
/// leaves them.
pub fn initialize_auction_house(
    ctx: &InitializeAuctionHouse,
    bump: u8,
    fee_payer_bump: u8,
    treasury_bump: u8,
    seller_fee_basis_points: u16,
    requires_sign_off: bool,
    can_change_sale_price: bool,
) -> (created: (AuctionHouse, TokenAccount, TokenAccount))
    ensures
        created.0 == (AuctionHouse {
            authority: ctx.authority,
            treasury_mint: ctx.treasury_mint,
            auction_house_fee_account: ctx.auction_house_fee_account,
            auction_house_treasury: ctx.auction_house_treasury,
            fee_withdrawal_destination: ctx.fee_withdrawal_destination,
            fee_payer_bump,
            treasury_bump,
            seller_fee_basis_points,
            requires_sign_off,
            can_change_sale_price,
            bump,
        }),
        created.1 == (TokenAccount {
            key: ctx.auction_house_fee_account,
            owner: ctx.auction_house,
            mint: ctx.treasury_mint,
            amount: 0,
        }),
        created.2 == (TokenAccount {
            key: ctx.auction_house_treasury,
            owner: ctx.auction_house,
            mint: ctx.treasury_mint,
            amount: 0,
        }),
{
    let house = AuctionHouse {
        authority: ctx.authority,
        treasury_mint: ctx.treasury_mint,
        auction_house_fee_account: ctx.auction_house_fee_account,
        auction_house_treasury: ctx.auction_house_treasury,
        fee_withdrawal_destination: ctx.fee_withdrawal_destination,
        fee_payer_bump,
        treasury_bump,
        seller_fee_basis_points,
        requires_sign_off,
        can_change_sale_price,
        bump,
    };
    let fee_escrow = TokenAccount {
        key: ctx.auction_house_fee_account,
        owner: ctx.auction_house,
        mint: ctx.treasury_mint,
        amount: 0,
    };
    let treasury_escrow = TokenAccount {
        key: ctx.auction_house_treasury,
        owner: ctx.auction_house,
        mint: ctx.treasury_mint,
        amount: 0,
    };
    (house, fee_escrow, treasury_escrow)
}

/// Creates a fresh auction record for the caller's asset: status `Active`,
/// `current_price` starting at `minimum_price`, no bidder on record. The
/// caller must own the asset-holding account and it must hold the listed
/// asset kind — the account checks the surrounding system makes before the
/// engine runs. The deadline is stored as given; nothing checks it lies in
/// the future.
pub fn create_auction(
    ctx: &CreateAuction,
    auction_bump: u8,
    token_size: u64,
    minimum_price: u64,
    end_time: i64,
) -> (auction: Auction)
    requires
        ctx.token_account.owner == ctx.authority,
        ctx.token_account.mint == ctx.token_mint,
    ensures
        auction == (Auction {
            authority: ctx.authority,
            token_mint: ctx.token_mint,
            token_account: ctx.token_account.key,
            treasury_mint: ctx.treasury_mint,
            token_size,
            minimum_price,
            current_price: minimum_price,
            end_time,
            highest_bidder: None,
            status: AuctionStatus::Active,
            bump: auction_bump,
        }),
        auction.wf(),
        auction.highest_bidder is None,
{
    Auction {
        authority: ctx.authority,
        token_mint: ctx.token_mint,
        token_account: ctx.token_account.key,
        treasury_mint: ctx.treasury_mint,
        token_size,
        minimum_price,
        current_price: minimum_price,
        end_time,
        highest_bidder: None,
        status: AuctionStatus::Active,
        bump: auction_bump,
    }
}

/// Places a bid of `bid_amount` at time `now`. Validates, in order: the
/// auction is `Active`, the deadline has not passed, the bid strictly beats
/// the current price, and this bidder holds no bid record yet
/// (`bid_exists`, the store's answer for the (auction, bidder) key). Then
/// escrows the funds — `bid_amount` moves from the bidder's account into the
/// auction's escrow account — and only once that move succeeded updates the
/// auction record and returns the new bid record, stamped `now`. On any
/// abort the auction record and both accounts are exactly as they were, and
/// the error is exactly what [`bid_failure`] names for the inputs. The
/// auction record changes exactly as [`step`] says for a bid event, so the
/// laws in [`crate::trace`] hold of real executions. Funds escrowed for a
/// bid that is later outbid stay in the auction's escrow account: the
/// protocol has no refund path for superseded bids.
pub fn place_bid(ctx: &mut PlaceBid, bid_exists: bool, now: i64, bid_amount: u64) -> (r: Result<
    Bid,
    OperationError,
>)
    requires
        old(ctx).bidder_token_account.owner == old(ctx).bidder,
        old(ctx).bidder_token_account.mint == old(ctx).auction.treasury_mint,
        old(ctx).auction_token_account.mint == old(ctx).auction.treasury_mint,
    ensures
        ({
            let pre = *old(ctx);
            let post = *final(ctx);
            let funded = pre.bidder_token_account.amount >= bid_amount
                && pre.auction_token_account.amount + bid_amount <= u64::MAX;
            let failure = bid_failure(
                pre.auction,
                now,
                bid_amount,
                bid_exists,
                pre.bidder_token_account.amount,
                pre.auction_token_account.amount,
            );
            &&& post.auction_key == pre.auction_key
            &&& post.bidder == pre.bidder
            &&& pre.auction.wf() ==> post.auction.wf()
            &&& post.auction == step(
                pre.auction,
                AuctionEvent::Bid {
                    bidder: pre.bidder,
                    amount: bid_amount,
                    now,
                    funds_ok: funded,
                    already_bid: bid_exists,
                },
            )
            &&& match r {
                Ok(bid) => {
                    &&& failure is None
                    &&& post.auction == (Auction {
                        current_price: bid_amount,
                        highest_bidder: Some(pre.bidder),
                        ..pre.auction
                    })
                    &&& post.bidder_token_account == (TokenAccount {
                        amount: (pre.bidder_token_account.amount - bid_amount) as u64,
                        ..pre.bidder_token_account
                    })
                    &&& post.auction_token_account == (TokenAccount {
                        amount: (pre.auction_token_account.amount + bid_amount) as u64,
                        ..pre.auction_token_account
                    })
                    &&& bid == (Bid {
                        auction: pre.auction_key,
                        bidder: pre.bidder,
                        amount: bid_amount,
                        timestamp: now,
                    })
                },
                Err(e) => {
                    &&& Some(e) == failure
                    &&& post == pre
                },
            }
        }),
{
    if ctx.auction.status != AuctionStatus::Active {
        return Err(OperationError::Rejected(AuctionHouseError::AuctionNotActive));
    }
    if now >= ctx.auction.end_time {
        return Err(OperationError::Rejected(AuctionHouseError::AuctionEnded));
    }
    if bid_amount <= ctx.auction.current_price {
        return Err(OperationError::Rejected(AuctionHouseError::BidTooLow));
    }
    if bid_exists {
        return Err(OperationError::DuplicateBid);
    }
    match transfer(&mut ctx.bidder_token_account, &mut ctx.auction_token_account, bid_amount) {
        Err(e) => Err(OperationError::TransferFailed(e)),
        Ok(_) => {
            ctx.auction.current_price = bid_amount;
            ctx.auction.highest_bidder = Some(ctx.bidder);
            Ok(
                Bid {
                    auction: ctx.auction_key,
                    bidder: ctx.bidder,
                    amount: bid_amount,
                    timestamp: now,
                },
            )
        },
    }
}

/// Ends the auction at time `now`. Validates that the deadline has passed
/// and that the auction is still `Active`. If a winner is on record, the
/// full asset quantity moves from the auction's escrow account to the
/// winner's account first — authorized by the auction's own capability, not
/// by a human caller — and only then does the status become `Ended`; with no
/// winner, no value moves and the asset stays in escrow. On any abort the
/// auction record and both accounts are exactly as they were, and the error
/// is exactly what [`end_failure`] names. The auction record changes exactly
/// as [`step`] says for an end event.
pub fn end_auction(ctx: &mut EndAuction, now: i64) -> (r: Result<(), OperationError>)
    requires
        old(ctx).auction_token_account.key == old(ctx).auction.token_account,
        old(ctx).auction.highest_bidder matches Some(winner) ==> old(
            ctx,
        ).bidder_token_account.owner == winner && old(ctx).bidder_token_account.mint == old(
            ctx,
        ).auction.token_mint,
    ensures
        ({
            let pre = *old(ctx);
            let post = *final(ctx);
            let failure = end_failure(
                pre.auction,
                now,
                pre.auction_token_account.amount,
                pre.bidder_token_account.amount,
            );
            &&& post.auction == step(
                pre.auction,
                AuctionEvent::End {
                    now,
                    funds_ok: !(failure matches Some(OperationError::TransferFailed(_))),
                },
            )
            &&& match r {
                Ok(_) => {
                    &&& failure is None
                    &&& post.auction == (Auction { status: AuctionStatus::Ended, ..pre.auction })
                    &&& pre.auction.highest_bidder is Some ==> post.auction_token_account == (
                    TokenAccount {
                        amount: (pre.auction_token_account.amount - pre.auction.token_size) as u64,
                        ..pre.auction_token_account
                    }) && post.bidder_token_account == (TokenAccount {
                        amount: (pre.bidder_token_account.amount + pre.auction.token_size) as u64,
                        ..pre.bidder_token_account
                    })
                    &&& pre.auction.highest_bidder is None ==> post.auction_token_account
                        == pre.auction_token_account && post.bidder_token_account
                        == pre.bidder_token_account
                },
                Err(e) => {
                    &&& Some(e) == failure
                    &&& post == pre
                },
            }
        }),
{
    if now < ctx.auction.end_time {
        return Err(OperationError::Rejected(AuctionHouseError::AuctionNotEnded));
    }
    if ctx.auction.status != AuctionStatus::Active {
        return Err(OperationError::Rejected(AuctionHouseError::AuctionNotActive));
    }
    if let Some(_) = ctx.auction.highest_bidder {
        match transfer(
            &mut ctx.auction_token_account,
            &mut ctx.bidder_token_account,
            ctx.auction.token_size,
        ) {
            Err(e) => {
                return Err(OperationError::TransferFailed(e));
            },
            Ok(_) => {},
        }
    }
    ctx.auction.status = AuctionStatus::Ended;
    Ok(())
}

/// Cancels the auction. Validates that the caller is the auction's own
/// authority and that the auction is still `Active`. The full asset
/// quantity moves back from the auction's escrow account to the seller's
/// account first — authorized by the auction's own capability — and only
/// then does the status become `Cancelled`. On any abort the auction record
/// and both accounts are exactly as they were, and the error is exactly what
/// [`cancel_failure`] names. The auction record changes exactly as [`step`]
/// says for a cancel event. Funds of bids already escrowed are left where
/// they are.
pub fn cancel_auction(ctx: &mut CancelAuction) -> (r: Result<(), OperationError>)
    requires
        old(ctx).auction_token_account.key == old(ctx).auction.token_account,
        old(ctx).owner_token_account.owner == old(ctx).auction.authority,
        old(ctx).owner_token_account.mint == old(ctx).auction.token_mint,
    ensures
        ({
            let pre = *old(ctx);
            let post = *final(ctx);
            let failure = cancel_failure(
                pre.auction,
                pre.authority,
                pre.auction_token_account.amount,
                pre.owner_token_account.amount,
            );
            &&& post.authority == pre.authority
            &&& post.auction == step(
                pre.auction,
                AuctionEvent::Cancel {
                    caller: pre.authority,
                    funds_ok: !(failure matches Some(OperationError::TransferFailed(_))),
                },
            )
            &&& match r {
                Ok(_) => {
                    &&& failure is None
                    &&& post.auction == (Auction {
                        status: AuctionStatus::Cancelled,
                        ..pre.auction
                    })
                    &&& post.auction_token_account == (TokenAccount {
                        amount: (pre.auction_token_account.amount - pre.auction.token_size) as u64,
                        ..pre.auction_token_account
                    })
                    &&& post.owner_token_account == (TokenAccount {
                        amount: (pre.owner_token_account.amount + pre.auction.token_size) as u64,
                        ..pre.owner_token_account
                    })
                },
                Err(e) => {
                    &&& Some(e) == failure
                    &&& post == pre
                },
            }
        }),
{
    if ctx.authority != ctx.auction.authority {
        return Err(OperationError::Rejected(AuctionHouseError::Unauthorized));
    }
    if ctx.auction.status != AuctionStatus::Active {
        return Err(OperationError::Rejected(AuctionHouseError::AuctionNotActive));
    }
    match transfer(
        &mut ctx.auction_token_account,
        &mut ctx.owner_token_account,
        ctx.auction.token_size,
    ) {
        Err(e) => Err(OperationError::TransferFailed(e)),
        Ok(_) => {
            ctx.auction.status = AuctionStatus::Cancelled;
            Ok(())
        },
    }
}

} // verus!
