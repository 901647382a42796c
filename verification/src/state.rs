//! The record kinds the engine works on, and their well-formedness.

use vstd::prelude::*;

verus! {

/// An opaque, unforgeable principal reference: it identifies an authority,
/// a bidder, an asset kind, or a value-holding account, and is only ever
/// compared for equality.
#[derive(Clone, Copy, PartialEq, Eq, Structural, Debug, Hash)]
pub struct Identity {
    pub id: u64,
}

/// The lifecycle tag of an auction. `Ended` and `Cancelled` are terminal:
/// no operation mutates an auction that carries one of them.
#[derive(Clone, Copy, PartialEq, Eq, Structural, Debug)]
pub enum AuctionStatus {
    Active,
    Ended,
    Cancelled,
}

/// One auction house configuration per authority: the settlement currency,
/// the two escrow-holding accounts the house controls, the fee destination,
/// the fee rate, two policy flags, and the derivation salts ("bumps") of the
/// house record and its escrow accounts.
#[derive(Clone, Copy, PartialEq, Eq, Structural, Debug)]
pub struct AuctionHouse {
    pub authority: Identity,
    pub treasury_mint: Identity,
    pub auction_house_fee_account: Identity,
    pub auction_house_treasury: Identity,
    pub fee_withdrawal_destination: Identity,
    pub fee_payer_bump: u8,
    pub treasury_bump: u8,
    pub seller_fee_basis_points: u16,
    pub requires_sign_off: bool,
    pub can_change_sale_price: bool,
    pub bump: u8,
}

/// One auction per (asset, seller authority). `current_price` starts at
/// `minimum_price` and only ever rises; `highest_bidder` is absent until the
/// first successful bid.
#[derive(Clone, Copy, PartialEq, Eq, Debug)]
pub struct Auction {
    pub authority: Identity,
    pub token_mint: Identity,
    pub token_account: Identity,
    pub treasury_mint: Identity,
    pub token_size: u64,
    pub minimum_price: u64,
    pub current_price: u64,
    pub end_time: i64,
    pub highest_bidder: Option<Identity>,
    pub status: AuctionStatus,
    pub bump: u8,
}

/// The record of one successful bid: which auction, who bid, how much, when.
/// Immutable once created.
#[derive(Clone, Copy, PartialEq, Eq, Debug)]
pub struct Bid {
    pub auction: Identity,
    pub bidder: Identity,
    pub amount: u64,
    pub timestamp: i64,
}

/// A value-holding account: its own address, the identity that controls it,
/// the kind of value it holds, and its balance. Balances change only through
/// [`crate::escrow::transfer`].
#[derive(Clone, Copy, PartialEq, Eq, Debug)]
pub struct TokenAccount {
    pub key: Identity,
    pub owner: Identity,
    pub mint: Identity,
    pub amount: u64,
}

/// The closed taxonomy of rule violations the engine itself detects. Each
/// operation reports the first one it finds and leaves every record as it
/// was.
#[derive(Clone, Copy, PartialEq, Eq, Structural, Debug)]
pub enum AuctionHouseError {
    /// The operation needs `status == Active` and the auction's status
    /// differs.
    AuctionNotActive,
    /// A bid arrived at or after the auction's end time.
    AuctionEnded,
    /// `end_auction` was called before the auction's end time.
    AuctionNotEnded,
    /// The bid amount does not strictly exceed the current price.
    BidTooLow,
    /// The caller is not the authority the operation demands.
    Unauthorized,
}

impl Auction {
    /// Well-formedness: the current price never falls below the minimum the
    /// seller asked for. `create_auction` establishes it and every operation
    /// preserves it.
    pub open spec fn wf(self) -> bool {
        self.current_price >= self.minimum_price
    }

    /// A terminal auction admits no further mutation.
    pub open spec fn is_terminal(self) -> bool {
        self.status is Ended || self.status is Cancelled
    }
}

} // verus!
