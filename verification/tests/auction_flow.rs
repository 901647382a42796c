//! Lifecycle scenarios: bidding, ending, cancelling, and the terminal
//! states.
//!
//! Note: funds escrowed for a superseded (outbid) bid stay in the auction's
//! escrow account — the engine has no refund path for them. That is a known
//! open issue of the escrow protocol, demonstrated below rather than papered
//! over.

use seismic_auction_house::lifecycle::CancelAuction;
use seismic_auction_house::lifecycle::CreateAuction;
use seismic_auction_house::lifecycle::EndAuction;
use seismic_auction_house::lifecycle::OperationError;
use seismic_auction_house::lifecycle::PlaceBid;
use seismic_auction_house::lifecycle::cancel_auction;
use seismic_auction_house::lifecycle::create_auction;
use seismic_auction_house::lifecycle::end_auction;
use seismic_auction_house::lifecycle::place_bid;
use seismic_auction_house::state::Auction;
use seismic_auction_house::state::AuctionHouseError;
use seismic_auction_house::state::AuctionStatus;
use seismic_auction_house::state::Identity;
use seismic_auction_house::state::TokenAccount;

const SELLER: Identity = Identity { id: 1 };
const ASSET_MINT: Identity = Identity { id: 2 };
const CURRENCY: Identity = Identity { id: 3 };
const SELLER_ASSET_ACCOUNT: Identity = Identity { id: 4 };
const AUCTION_KEY: Identity = Identity { id: 5 };
const BIDDER_1: Identity = Identity { id: 6 };
const BIDDER_2: Identity = Identity { id: 7 };

/// An auction listed by `SELLER` with minimum price 100 and deadline 60.
fn listed_auction() -> Auction {
    let ctx = CreateAuction {
        authority: SELLER,
        token_mint: ASSET_MINT,
        token_account: TokenAccount {
            key: SELLER_ASSET_ACCOUNT,
            owner: SELLER,
            mint: ASSET_MINT,
            amount: 1,
        },
        treasury_mint: CURRENCY,
    };
    create_auction(&ctx, 251, 1, 100, 60)
}

fn currency_account(key: u64, owner: Identity, amount: u64) -> TokenAccount {
    TokenAccount { key: Identity { id: key }, owner, mint: CURRENCY, amount }
}

fn asset_account(key: Identity, owner: Identity, amount: u64) -> TokenAccount {
    TokenAccount { key, owner, mint: ASSET_MINT, amount }
}

fn bid_context(auction: Auction, bidder: Identity, balance: u64, escrowed: u64) -> PlaceBid {
    PlaceBid {
        auction,
        auction_key: AUCTION_KEY,
        bidder,
        bidder_token_account: currency_account(100 + bidder.id, bidder, balance),
        auction_token_account: currency_account(99, AUCTION_KEY, escrowed),
    }
}

#[test]
fn bid_outbid_late_bid_then_end() {
    let auction = listed_auction();
    assert_eq!(auction.current_price, 100);
    assert_eq!(auction.status, AuctionStatus::Active);
    assert_eq!(auction.highest_bidder, None);

    // Bid 150 at time 10: beats the floor of 100.
    let mut ctx = bid_context(auction, BIDDER_1, 1_000, 0);
    let bid = place_bid(&mut ctx, false, 10, 150).unwrap();
    assert_eq!(ctx.auction.current_price, 150);
    assert_eq!(ctx.auction.highest_bidder, Some(BIDDER_1));
    assert_eq!(ctx.auction.status, AuctionStatus::Active);
    assert_eq!(ctx.bidder_token_account.amount, 850);
    assert_eq!(ctx.auction_token_account.amount, 150);
    assert_eq!(bid.auction, AUCTION_KEY);
    assert_eq!(bid.bidder, BIDDER_1);
    assert_eq!(bid.amount, 150);
    assert_eq!(bid.timestamp, 10);

    // Bid 120 at time 20: does not beat 150.
    let auction = ctx.auction;
    let mut ctx = bid_context(auction, BIDDER_2, 1_000, 150);
    let r = place_bid(&mut ctx, false, 20, 120);
    assert_eq!(r, Err(OperationError::Rejected(AuctionHouseError::BidTooLow)));
    assert_eq!(ctx.auction.current_price, 150);
    assert_eq!(ctx.auction.highest_bidder, Some(BIDDER_1));
    assert_eq!(ctx.bidder_token_account.amount, 1_000);
    assert_eq!(ctx.auction_token_account.amount, 150);

    // Bid 200 at time 70: the deadline (60) has passed.
    let mut ctx = bid_context(auction, BIDDER_2, 1_000, 150);
    let r = place_bid(&mut ctx, false, 70, 200);
    assert_eq!(r, Err(OperationError::Rejected(AuctionHouseError::AuctionEnded)));
    assert_eq!(ctx.auction.current_price, 150);

    // End at time 61: the asset moves to the winner.
    let mut ctx = EndAuction {
        auction,
        auction_token_account: asset_account(SELLER_ASSET_ACCOUNT, AUCTION_KEY, 1),
        bidder_token_account: asset_account(Identity { id: 50 }, BIDDER_1, 0),
    };
    assert_eq!(end_auction(&mut ctx, 61), Ok(()));
    assert_eq!(ctx.auction.status, AuctionStatus::Ended);
    assert_eq!(ctx.auction.current_price, 150);
    assert_eq!(ctx.auction.highest_bidder, Some(BIDDER_1));
    assert_eq!(ctx.auction_token_account.amount, 0);
    assert_eq!(ctx.bidder_token_account.amount, 1);
}

#[test]
fn end_with_no_bids_moves_nothing() {
    let auction = listed_auction();
    let mut ctx = EndAuction {
        auction,
        auction_token_account: asset_account(SELLER_ASSET_ACCOUNT, AUCTION_KEY, 1),
        bidder_token_account: asset_account(Identity { id: 50 }, BIDDER_1, 0),
    };
    assert_eq!(end_auction(&mut ctx, 61), Ok(()));
    assert_eq!(ctx.auction.status, AuctionStatus::Ended);
    assert_eq!(ctx.auction.highest_bidder, None);
    // The asset stays in the auction's escrow account.
    assert_eq!(ctx.auction_token_account.amount, 1);
    assert_eq!(ctx.bidder_token_account.amount, 0);
}

#[test]
fn end_before_deadline_rejected() {
    let auction = listed_auction();
    let mut ctx = EndAuction {
        auction,
        auction_token_account: asset_account(SELLER_ASSET_ACCOUNT, AUCTION_KEY, 1),
        bidder_token_account: asset_account(Identity { id: 50 }, BIDDER_1, 0),
    };
    let r = end_auction(&mut ctx, 59);
    assert_eq!(r, Err(OperationError::Rejected(AuctionHouseError::AuctionNotEnded)));
    assert_eq!(ctx.auction, auction);
    assert_eq!(ctx.auction_token_account.amount, 1);
}

#[test]
fn cancel_by_non_authority_rejected() {
    let auction = listed_auction();
    let mut ctx = CancelAuction {
        auction,
        auction_token_account: asset_account(SELLER_ASSET_ACCOUNT, AUCTION_KEY, 1),
        owner_token_account: asset_account(Identity { id: 60 }, SELLER, 0),
        authority: BIDDER_1,
    };
    let r = cancel_auction(&mut ctx);
    assert_eq!(r, Err(OperationError::Rejected(AuctionHouseError::Unauthorized)));
    assert_eq!(ctx.auction.status, AuctionStatus::Active);
    assert_eq!(ctx.auction, auction);
    assert_eq!(ctx.auction_token_account.amount, 1);
    assert_eq!(ctx.owner_token_account.amount, 0);
}

#[test]
fn cancel_twice_fails_the_second_time() {
    let auction = listed_auction();
    let mut ctx = CancelAuction {
        auction,
        auction_token_account: asset_account(SELLER_ASSET_ACCOUNT, AUCTION_KEY, 1),
        owner_token_account: asset_account(Identity { id: 60 }, SELLER, 0),
        authority: SELLER,
    };
    assert_eq!(cancel_auction(&mut ctx), Ok(()));
    assert_eq!(ctx.auction.status, AuctionStatus::Cancelled);
    // The asset went back to the seller.
    assert_eq!(ctx.auction_token_account.amount, 0);
    assert_eq!(ctx.owner_token_account.amount, 1);

    let cancelled = ctx.auction;
    let mut ctx = CancelAuction {
        auction: cancelled,
        auction_token_account: asset_account(SELLER_ASSET_ACCOUNT, AUCTION_KEY, 0),
        owner_token_account: asset_account(Identity { id: 60 }, SELLER, 1),
        authority: SELLER,
    };
    let r = cancel_auction(&mut ctx);
    assert_eq!(r, Err(OperationError::Rejected(AuctionHouseError::AuctionNotActive)));
    assert_eq!(ctx.auction, cancelled);
    assert_eq!(ctx.owner_token_account.amount, 1);
}

#[test]
fn terminal_auction_rejects_every_operation() {
    let auction = listed_auction();
    let mut ctx = EndAuction {
        auction,
        auction_token_account: asset_account(SELLER_ASSET_ACCOUNT, AUCTION_KEY, 1),
        bidder_token_account: asset_account(Identity { id: 50 }, BIDDER_1, 0),
    };
    assert_eq!(end_auction(&mut ctx, 61), Ok(()));
    let ended = ctx.auction;

    // A bid after the end changes nothing, not even through a fresh window.
    let mut bid_ctx = bid_context(ended, BIDDER_2, 1_000, 0);
    let r = place_bid(&mut bid_ctx, false, 10, 500);
    assert_eq!(r, Err(OperationError::Rejected(AuctionHouseError::AuctionNotActive)));
    assert_eq!(bid_ctx.auction, ended);

    // Ending again fails too.
    let mut end_ctx = EndAuction {
        auction: ended,
        auction_token_account: asset_account(SELLER_ASSET_ACCOUNT, AUCTION_KEY, 1),
        bidder_token_account: asset_account(Identity { id: 50 }, BIDDER_1, 0),
    };
    let r = end_auction(&mut end_ctx, 70);
    assert_eq!(r, Err(OperationError::Rejected(AuctionHouseError::AuctionNotActive)));
    assert_eq!(end_ctx.auction, ended);

    // Cancelling an ended auction fails, even for the authority.
    let mut cancel_ctx = CancelAuction {
        auction: ended,
        auction_token_account: asset_account(SELLER_ASSET_ACCOUNT, AUCTION_KEY, 1),
        owner_token_account: asset_account(Identity { id: 60 }, SELLER, 0),
        authority: SELLER,
    };
    let r = cancel_auction(&mut cancel_ctx);
    assert_eq!(r, Err(OperationError::Rejected(AuctionHouseError::AuctionNotActive)));
    assert_eq!(cancel_ctx.auction, ended);
}

#[test]
fn successive_bids_strictly_increase_price() {
    let auction = listed_auction();
    let mut ctx = bid_context(auction, BIDDER_1, 1_000, 0);
    assert!(place_bid(&mut ctx, false, 5, 150).is_ok());
    assert!(ctx.auction.current_price > auction.current_price);

    let after_first = ctx.auction;
    let mut ctx = bid_context(after_first, BIDDER_2, 1_000, 150);
    assert!(place_bid(&mut ctx, false, 6, 160).is_ok());
    assert!(ctx.auction.current_price > after_first.current_price);
    assert_eq!(ctx.auction.current_price, 160);
    assert_eq!(ctx.auction.highest_bidder, Some(BIDDER_2));

    // A bid equal to the current price never goes through.
    let after_second = ctx.auction;
    let mut ctx = bid_context(after_second, BIDDER_1, 1_000, 310);
    let r = place_bid(&mut ctx, true, 7, 160);
    assert_eq!(r, Err(OperationError::Rejected(AuctionHouseError::BidTooLow)));
}

#[test]
fn equal_bids_let_exactly_one_through() {
    // Two bids of 150 race; the store serializes them. The first wins.
    let auction = listed_auction();
    let mut first = bid_context(auction, BIDDER_1, 1_000, 0);
    assert!(place_bid(&mut first, false, 10, 150).is_ok());

    // The loser re-reads the record and fails on the price check alone.
    let mut second = bid_context(first.auction, BIDDER_2, 1_000, 150);
    let r = place_bid(&mut second, false, 11, 150);
    assert_eq!(r, Err(OperationError::Rejected(AuctionHouseError::BidTooLow)));
    assert_eq!(second.auction.highest_bidder, Some(BIDDER_1));
    assert_eq!(second.bidder_token_account.amount, 1_000);
}

#[test]
fn superseded_bid_funds_stay_escrowed() {
    // Bidder 1 escrows 150, bidder 2 outbids with 160, the auction ends.
    // The 150 stays in the auction's currency escrow: no refund path.
    let auction = listed_auction();
    let mut ctx = bid_context(auction, BIDDER_1, 1_000, 0);
    assert!(place_bid(&mut ctx, false, 5, 150).is_ok());
    let mut ctx = bid_context(ctx.auction, BIDDER_2, 1_000, ctx.auction_token_account.amount);
    assert!(place_bid(&mut ctx, false, 6, 160).is_ok());
    assert_eq!(ctx.auction_token_account.amount, 310);

    let mut end_ctx = EndAuction {
        auction: ctx.auction,
        auction_token_account: asset_account(SELLER_ASSET_ACCOUNT, AUCTION_KEY, 1),
        bidder_token_account: asset_account(Identity { id: 50 }, BIDDER_2, 0),
    };
    assert_eq!(end_auction(&mut end_ctx, 61), Ok(()));
    // The winner got the asset; both escrowed bid amounts are still in the
    // currency escrow account, 150 of them stranded.
    assert_eq!(end_ctx.bidder_token_account.amount, 1);
    assert_eq!(ctx.auction_token_account.amount, 310);
}

#[test]
fn bid_at_the_deadline_is_too_late() {
    let auction = listed_auction();
    let mut ctx = bid_context(auction, BIDDER_1, 1_000, 0);
    let r = place_bid(&mut ctx, false, 60, 150);
    assert_eq!(r, Err(OperationError::Rejected(AuctionHouseError::AuctionEnded)));
    assert_eq!(ctx.auction, auction);
}
