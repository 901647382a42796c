//! The fixed-size persisted form of each record kind.
//!
//! The store keeps records as bytes; the engine round-trips them losslessly.
//! Each record kind has one canonical byte form, written out by `*_bytes`
//! spec functions, and the decoders accept exactly the canonical forms:
//! `decode_x(v)` returns `Some(r)` if and only if `v` is `x_bytes(r)`.

use vstd::assert_seqs_equal;
use vstd::bytes::lemma_auto_spec_u16_to_from_le_bytes;
use vstd::bytes::lemma_auto_spec_u64_to_from_le_bytes;
use vstd::bytes::spec_u16_to_le_bytes;
use vstd::bytes::spec_u64_to_le_bytes;
use vstd::bytes::u16_from_le_bytes;
use vstd::bytes::u16_to_le_bytes;
use vstd::bytes::u64_from_le_bytes;
use vstd::bytes::u64_to_le_bytes;
use vstd::prelude::*;
use vstd::slice::slice_index_get;
use vstd::slice::slice_subrange;

use crate::state::Auction;
use crate::state::AuctionHouse;
use crate::state::AuctionStatus;
use crate::state::Bid;
use crate::state::Identity;

verus! {

/// The persisted size of a bid record: two identities, the amount, the
/// timestamp, eight bytes each.
pub const BID_RECORD_LEN: usize = 32;

/// The persisted size of an auction record: four identities, three amounts,
/// the deadline, a nine-byte optional bidder, the status byte, the salt.
pub const AUCTION_RECORD_LEN: usize = 75;

/// An identity persists as its eight-byte little-endian value.
pub open spec fn identity_bytes(x: Identity) -> Seq<u8> {
    spec_u64_to_le_bytes(x.id)
}

/// A timestamp persists as the eight-byte little-endian form of its
/// two's-complement value.
pub open spec fn time_bytes(t: i64) -> Seq<u8> {
    spec_u64_to_le_bytes(t as u64)
}

/// The canonical byte form of a bid record.
pub open spec fn bid_bytes(b: Bid) -> Seq<u8> {
    identity_bytes(b.auction) + identity_bytes(b.bidder) + spec_u64_to_le_bytes(b.amount)
        + time_bytes(b.timestamp)
}

/// Writes a bid record in its canonical byte form.
pub fn encode_bid(b: &Bid) -> (out: Vec<u8>)
    ensures
        out@ == bid_bytes(*b),
        out@.len() == BID_RECORD_LEN,
{
    proof {
        lemma_auto_spec_u64_to_from_le_bytes();
    }
    let mut out: Vec<u8> = Vec::new();
    let mut part = u64_to_le_bytes(b.auction.id);
    out.append(&mut part);
    let mut part = u64_to_le_bytes(b.bidder.id);
    out.append(&mut part);
    let mut part = u64_to_le_bytes(b.amount);
    out.append(&mut part);
    let mut part = u64_to_le_bytes(b.timestamp as u64);
    out.append(&mut part);
    out
}

/// Where each piece of a bid record sits in its byte form.
proof fn lemma_bid_bytes_shape(b: Bid)
    ensures
        bid_bytes(b).len() == BID_RECORD_LEN,
        bid_bytes(b).subrange(0, 8) == identity_bytes(b.auction),
        bid_bytes(b).subrange(8, 16) == identity_bytes(b.bidder),
        bid_bytes(b).subrange(16, 24) == spec_u64_to_le_bytes(b.amount),
        bid_bytes(b).subrange(24, 32) == time_bytes(b.timestamp),
{
    lemma_auto_spec_u64_to_from_le_bytes();
    assert_seqs_equal!(bid_bytes(b).subrange(0, 8) == identity_bytes(b.auction));
    assert_seqs_equal!(bid_bytes(b).subrange(8, 16) == identity_bytes(b.bidder));
    assert_seqs_equal!(bid_bytes(b).subrange(16, 24) == spec_u64_to_le_bytes(b.amount));
    assert_seqs_equal!(bid_bytes(b).subrange(24, 32) == time_bytes(b.timestamp));
}

/// One bid record, one byte form: two bid records with the same byte form
/// are the same record. Together with the decoder's contract — `Some(b)`
/// exactly on `bid_bytes(b)` — this is round-trip fidelity for bids.
pub proof fn lemma_bid_bytes_injective(b1: Bid, b2: Bid)
    requires
        bid_bytes(b1) == bid_bytes(b2),
    ensures
        b1 == b2,
{
    lemma_auto_spec_u64_to_from_le_bytes();
    lemma_bid_bytes_shape(b1);
    lemma_bid_bytes_shape(b2);
    let t1 = b1.timestamp;
    let t2 = b2.timestamp;
    assert(t1 as u64 == t2 as u64 ==> t1 == t2) by (bit_vector);
}

/// Reads a bid record back: `Some(b)` exactly when `v` is the canonical
/// byte form of `b`.
pub fn decode_bid(v: &[u8]) -> (r: Option<Bid>)
    ensures
        match r {
            Some(b) => v@ == bid_bytes(b),
            None => forall|b: Bid| v@ != bid_bytes(b),
        },
{
    proof {
        lemma_auto_spec_u64_to_from_le_bytes();
    }
    if v.len() != BID_RECORD_LEN {
        return None;
    }
    let auction = u64_from_le_bytes(slice_subrange(v, 0, 8));
    let bidder = u64_from_le_bytes(slice_subrange(v, 8, 16));
    let amount = u64_from_le_bytes(slice_subrange(v, 16, 24));
    let stamp = u64_from_le_bytes(slice_subrange(v, 24, 32));
    let b = Bid {
        auction: Identity { id: auction },
        bidder: Identity { id: bidder },
        amount,
        timestamp: stamp as i64,
    };
    proof {
        assert((stamp as i64) as u64 == stamp) by (bit_vector);
        assert_seqs_equal!(
            v@ == v@.subrange(0, 8) + v@.subrange(8, 16) + v@.subrange(16, 24)
                + v@.subrange(24, 32)
        );
    }
    Some(b)
}

/// An optional bidder persists as a tag byte and an eight-byte payload;
/// an absent bidder has tag zero and a zero payload, so the form stays
/// canonical.
pub open spec fn option_identity_bytes(o: Option<Identity>) -> Seq<u8> {
    match o {
        Some(w) => seq![1u8] + identity_bytes(w),
        None => seq![0u8] + spec_u64_to_le_bytes(0u64),
    }
}

/// The one-byte form of a status tag.
pub open spec fn status_byte(s: AuctionStatus) -> u8 {
    match s {
        AuctionStatus::Active => 0u8,
        AuctionStatus::Ended => 1u8,
        AuctionStatus::Cancelled => 2u8,
    }
}

/// The canonical byte form of an auction record.
pub open spec fn auction_bytes(a: Auction) -> Seq<u8> {
    identity_bytes(a.authority) + identity_bytes(a.token_mint) + identity_bytes(a.token_account)
        + identity_bytes(a.treasury_mint) + spec_u64_to_le_bytes(a.token_size)
        + spec_u64_to_le_bytes(a.minimum_price) + spec_u64_to_le_bytes(a.current_price)
        + time_bytes(a.end_time) + option_identity_bytes(a.highest_bidder) + seq![
        status_byte(a.status),
    ] + seq![a.bump]
}

/// Where each piece of an auction record sits in its byte form.
proof fn lemma_auction_bytes_shape(a: Auction)
    ensures
        auction_bytes(a).len() == AUCTION_RECORD_LEN,
        auction_bytes(a).subrange(0, 8) == identity_bytes(a.authority),
        auction_bytes(a).subrange(8, 16) == identity_bytes(a.token_mint),
        auction_bytes(a).subrange(16, 24) == identity_bytes(a.token_account),
        auction_bytes(a).subrange(24, 32) == identity_bytes(a.treasury_mint),
        auction_bytes(a).subrange(32, 40) == spec_u64_to_le_bytes(a.token_size),
        auction_bytes(a).subrange(40, 48) == spec_u64_to_le_bytes(a.minimum_price),
        auction_bytes(a).subrange(48, 56) == spec_u64_to_le_bytes(a.current_price),
        auction_bytes(a).subrange(56, 64) == time_bytes(a.end_time),
        auction_bytes(a)[64] == (if a.highest_bidder is Some {
            1u8
        } else {
            0u8
        }),
        auction_bytes(a).subrange(65, 73) == (match a.highest_bidder {
            Some(w) => spec_u64_to_le_bytes(w.id),
            None => spec_u64_to_le_bytes(0u64),
        }),
        auction_bytes(a)[73] == status_byte(a.status),
        auction_bytes(a)[74] == a.bump,
{
    lemma_auto_spec_u64_to_from_le_bytes();
    let payload = match a.highest_bidder {
        Some(w) => spec_u64_to_le_bytes(w.id),
        None => spec_u64_to_le_bytes(0u64),
    };
    assert_seqs_equal!(auction_bytes(a).subrange(0, 8) == identity_bytes(a.authority));
    assert_seqs_equal!(auction_bytes(a).subrange(8, 16) == identity_bytes(a.token_mint));
    assert_seqs_equal!(auction_bytes(a).subrange(16, 24) == identity_bytes(a.token_account));
    assert_seqs_equal!(auction_bytes(a).subrange(24, 32) == identity_bytes(a.treasury_mint));
    assert_seqs_equal!(auction_bytes(a).subrange(32, 40) == spec_u64_to_le_bytes(a.token_size));
    assert_seqs_equal!(auction_bytes(a).subrange(40, 48) == spec_u64_to_le_bytes(a.minimum_price));
    assert_seqs_equal!(auction_bytes(a).subrange(48, 56) == spec_u64_to_le_bytes(a.current_price));
    assert_seqs_equal!(auction_bytes(a).subrange(56, 64) == time_bytes(a.end_time));
    assert_seqs_equal!(auction_bytes(a).subrange(65, 73) == payload);
}

/// One auction record, one byte form: two auction records with the same
/// byte form are the same record. Together with the decoder's contract —
/// `Some(a)` exactly on `auction_bytes(a)` — this is round-trip fidelity
/// for auctions.
pub proof fn lemma_auction_bytes_injective(a1: Auction, a2: Auction)
    requires
        auction_bytes(a1) == auction_bytes(a2),
    ensures
        a1 == a2,
{
    lemma_auto_spec_u64_to_from_le_bytes();
    lemma_auction_bytes_shape(a1);
    lemma_auction_bytes_shape(a2);
    let t1 = a1.end_time;
    let t2 = a2.end_time;
    assert(t1 as u64 == t2 as u64 ==> t1 == t2) by (bit_vector);
}

/// Writes an auction record in its canonical byte form.
pub fn encode_auction(a: &Auction) -> (out: Vec<u8>)
    ensures
        out@ == auction_bytes(*a),
        out@.len() == AUCTION_RECORD_LEN,
{
    proof {
        lemma_auto_spec_u64_to_from_le_bytes();
    }
    let mut out: Vec<u8> = Vec::new();
    let mut part = u64_to_le_bytes(a.authority.id);
    out.append(&mut part);
    let mut part = u64_to_le_bytes(a.token_mint.id);
    out.append(&mut part);
    let mut part = u64_to_le_bytes(a.token_account.id);
    out.append(&mut part);
    let mut part = u64_to_le_bytes(a.treasury_mint.id);
    out.append(&mut part);
    let mut part = u64_to_le_bytes(a.token_size);
    out.append(&mut part);
    let mut part = u64_to_le_bytes(a.minimum_price);
    out.append(&mut part);
    let mut part = u64_to_le_bytes(a.current_price);
    out.append(&mut part);
    let mut part = u64_to_le_bytes(a.end_time as u64);
    out.append(&mut part);
    match a.highest_bidder {
        Some(w) => {
            out.push(1);
            let mut part = u64_to_le_bytes(w.id);
            out.append(&mut part);
        },
        None => {
            out.push(0);
            let mut part = u64_to_le_bytes(0);
            out.append(&mut part);
        },
    }
    let status = match a.status {
        AuctionStatus::Active => 0,
        AuctionStatus::Ended => 1,
        AuctionStatus::Cancelled => 2,
    };
    out.push(status);
    out.push(a.bump);
    proof {
        assert_seqs_equal!(out@ == auction_bytes(*a));
    }
    out
}

/// Reads an auction record back: `Some(a)` exactly when `v` is the
/// canonical byte form of `a`.
pub fn decode_auction(v: &[u8]) -> (r: Option<Auction>)
    ensures
        match r {
            Some(a) => v@ == auction_bytes(a),
            None => forall|a: Auction| v@ != auction_bytes(a),
        },
{
    proof {
        lemma_auto_spec_u64_to_from_le_bytes();
    }
    if v.len() != AUCTION_RECORD_LEN {
        proof {
            assert forall|a: Auction| v@ != auction_bytes(a) by {
                lemma_auction_bytes_shape(a);
            }
        }
        return None;
    }
    let authority = u64_from_le_bytes(slice_subrange(v, 0, 8));
    let token_mint = u64_from_le_bytes(slice_subrange(v, 8, 16));
    let token_account = u64_from_le_bytes(slice_subrange(v, 16, 24));
    let treasury_mint = u64_from_le_bytes(slice_subrange(v, 24, 32));
    let token_size = u64_from_le_bytes(slice_subrange(v, 32, 40));
    let minimum_price = u64_from_le_bytes(slice_subrange(v, 40, 48));
    let current_price = u64_from_le_bytes(slice_subrange(v, 48, 56));
    let stamp = u64_from_le_bytes(slice_subrange(v, 56, 64));
    let tag = *slice_index_get(v, 64);
    let payload = u64_from_le_bytes(slice_subrange(v, 65, 73));
    let status_b = *slice_index_get(v, 73);
    let bump = *slice_index_get(v, 74);
    if tag > 1 || (tag == 0 && payload != 0) || status_b > 2 {
        proof {
            assert forall|a: Auction| v@ != auction_bytes(a) by {
                lemma_auction_bytes_shape(a);
            }
        }
        return None;
    }
    let highest_bidder = if tag == 1 {
        Some(Identity { id: payload })
    } else {
        None
    };
    let status = if status_b == 0 {
        AuctionStatus::Active
    } else if status_b == 1 {
        AuctionStatus::Ended
    } else {
        AuctionStatus::Cancelled
    };
    let a = Auction {
        authority: Identity { id: authority },
        token_mint: Identity { id: token_mint },
        token_account: Identity { id: token_account },
        treasury_mint: Identity { id: treasury_mint },
        token_size,
        minimum_price,
        current_price,
        end_time: stamp as i64,
        highest_bidder,
        status,
        bump,
    };
    proof {
        assert((stamp as i64) as u64 == stamp) by (bit_vector);
        assert_seqs_equal!(
            v@ == v@.subrange(0, 8) + v@.subrange(8, 16) + v@.subrange(16, 24)
                + v@.subrange(24, 32) + v@.subrange(32, 40) + v@.subrange(40, 48)
                + v@.subrange(48, 56) + v@.subrange(56, 64)
                + (seq![v@[64]] + v@.subrange(65, 73)) + seq![v@[73]] + seq![v@[74]]
        );
        assert(seq![v@[64]] + v@.subrange(65, 73) == option_identity_bytes(a.highest_bidder));
        assert(seq![v@[73]] == seq![status_byte(a.status)]);
    }
    Some(a)
}

/// The persisted size of a house configuration record: five identities,
/// two salts, the fee rate, two policy flags, the house salt.
pub const HOUSE_RECORD_LEN: usize = 47;

/// The one-byte form of a policy flag.
pub open spec fn bool_byte(b: bool) -> u8 {
    if b {
        1u8
    } else {
        0u8
    }
}

/// The canonical byte form of a house configuration record.
pub open spec fn house_bytes(h: AuctionHouse) -> Seq<u8> {
    identity_bytes(h.authority) + identity_bytes(h.treasury_mint) + identity_bytes(
        h.auction_house_fee_account,
    ) + identity_bytes(h.auction_house_treasury) + identity_bytes(h.fee_withdrawal_destination)
        + seq![h.fee_payer_bump] + seq![h.treasury_bump] + spec_u16_to_le_bytes(
        h.seller_fee_basis_points,
    ) + seq![bool_byte(h.requires_sign_off)] + seq![bool_byte(h.can_change_sale_price)] + seq![
        h.bump,
    ]
}

/// Where each piece of a house configuration record sits in its byte form.
proof fn lemma_house_bytes_shape(h: AuctionHouse)
    ensures
        house_bytes(h).len() == HOUSE_RECORD_LEN,
        house_bytes(h).subrange(0, 8) == identity_bytes(h.authority),
        house_bytes(h).subrange(8, 16) == identity_bytes(h.treasury_mint),
        house_bytes(h).subrange(16, 24) == identity_bytes(h.auction_house_fee_account),
        house_bytes(h).subrange(24, 32) == identity_bytes(h.auction_house_treasury),
        house_bytes(h).subrange(32, 40) == identity_bytes(h.fee_withdrawal_destination),
        house_bytes(h)[40] == h.fee_payer_bump,
        house_bytes(h)[41] == h.treasury_bump,
        house_bytes(h).subrange(42, 44) == spec_u16_to_le_bytes(h.seller_fee_basis_points),
        house_bytes(h)[44] == bool_byte(h.requires_sign_off),
        house_bytes(h)[45] == bool_byte(h.can_change_sale_price),
        house_bytes(h)[46] == h.bump,
{
    lemma_auto_spec_u64_to_from_le_bytes();
    lemma_auto_spec_u16_to_from_le_bytes();
    assert_seqs_equal!(house_bytes(h).subrange(0, 8) == identity_bytes(h.authority));
    assert_seqs_equal!(house_bytes(h).subrange(8, 16) == identity_bytes(h.treasury_mint));
    assert_seqs_equal!(
        house_bytes(h).subrange(16, 24) == identity_bytes(h.auction_house_fee_account)
    );
    assert_seqs_equal!(
        house_bytes(h).subrange(24, 32) == identity_bytes(h.auction_house_treasury)
    );
    assert_seqs_equal!(
        house_bytes(h).subrange(32, 40) == identity_bytes(h.fee_withdrawal_destination)
    );
    assert_seqs_equal!(
        house_bytes(h).subrange(42, 44) == spec_u16_to_le_bytes(h.seller_fee_basis_points)
    );
}

/// One house configuration record, one byte form: two records with the
/// same byte form are the same record. Together with the decoder's
/// contract — `Some(h)` exactly on `house_bytes(h)` — this is round-trip
/// fidelity for house configurations.
pub proof fn lemma_house_bytes_injective(h1: AuctionHouse, h2: AuctionHouse)
    requires
        house_bytes(h1) == house_bytes(h2),
    ensures
        h1 == h2,
{
    lemma_auto_spec_u64_to_from_le_bytes();
    lemma_auto_spec_u16_to_from_le_bytes();
    lemma_house_bytes_shape(h1);
    lemma_house_bytes_shape(h2);
}

/// Writes a house configuration record in its canonical byte form.
pub fn encode_house(h: &AuctionHouse) -> (out: Vec<u8>)
    ensures
        out@ == house_bytes(*h),
        out@.len() == HOUSE_RECORD_LEN,
{
    proof {
        lemma_auto_spec_u64_to_from_le_bytes();
        lemma_auto_spec_u16_to_from_le_bytes();
    }
    let mut out: Vec<u8> = Vec::new();
    let mut part = u64_to_le_bytes(h.authority.id);
    out.append(&mut part);
    let mut part = u64_to_le_bytes(h.treasury_mint.id);
    out.append(&mut part);
    let mut part = u64_to_le_bytes(h.auction_house_fee_account.id);
    out.append(&mut part);
    let mut part = u64_to_le_bytes(h.auction_house_treasury.id);
    out.append(&mut part);
    let mut part = u64_to_le_bytes(h.fee_withdrawal_destination.id);
    out.append(&mut part);
    out.push(h.fee_payer_bump);
    out.push(h.treasury_bump);
    let mut part = u16_to_le_bytes(h.seller_fee_basis_points);
    out.append(&mut part);
    out.push(if h.requires_sign_off {
        1
    } else {
        0
    });
    out.push(if h.can_change_sale_price {
        1
    } else {
        0
    });
    out.push(h.bump);
    proof {
        assert_seqs_equal!(out@ == house_bytes(*h));
    }
    out
}

/// Reads a house configuration record back: `Some(h)` exactly when `v` is
/// the canonical byte form of `h`.
pub fn decode_house(v: &[u8]) -> (r: Option<AuctionHouse>)
    ensures
        match r {
            Some(h) => v@ == house_bytes(h),
            None => forall|h: AuctionHouse| v@ != house_bytes(h),
        },
{
    proof {
        lemma_auto_spec_u64_to_from_le_bytes();
        lemma_auto_spec_u16_to_from_le_bytes();
    }
    if v.len() != HOUSE_RECORD_LEN {
        proof {
            assert forall|h: AuctionHouse| v@ != house_bytes(h) by {
                lemma_house_bytes_shape(h);
            }
        }
        return None;
    }
    let authority = u64_from_le_bytes(slice_subrange(v, 0, 8));
    let treasury_mint = u64_from_le_bytes(slice_subrange(v, 8, 16));
    let fee_account = u64_from_le_bytes(slice_subrange(v, 16, 24));
    let treasury = u64_from_le_bytes(slice_subrange(v, 24, 32));
    let fee_destination = u64_from_le_bytes(slice_subrange(v, 32, 40));
    let fee_payer_bump = *slice_index_get(v, 40);
    let treasury_bump = *slice_index_get(v, 41);
    let fee_bps = u16_from_le_bytes(slice_subrange(v, 42, 44));
    let sign_off_b = *slice_index_get(v, 44);
    let change_price_b = *slice_index_get(v, 45);
    let bump = *slice_index_get(v, 46);
    if sign_off_b > 1 || change_price_b > 1 {
        proof {
            assert forall|h: AuctionHouse| v@ != house_bytes(h) by {
                lemma_house_bytes_shape(h);
            }
        }
        return None;
    }
    let h = AuctionHouse {
        authority: Identity { id: authority },
        treasury_mint: Identity { id: treasury_mint },
        auction_house_fee_account: Identity { id: fee_account },
        auction_house_treasury: Identity { id: treasury },
        fee_withdrawal_destination: Identity { id: fee_destination },
        fee_payer_bump,
        treasury_bump,
        seller_fee_basis_points: fee_bps,
        requires_sign_off: sign_off_b == 1,
        can_change_sale_price: change_price_b == 1,
        bump,
    };
    proof {
        assert_seqs_equal!(
            v@ == v@.subrange(0, 8) + v@.subrange(8, 16) + v@.subrange(16, 24)
                + v@.subrange(24, 32) + v@.subrange(32, 40) + seq![v@[40]] + seq![v@[41]]
                + v@.subrange(42, 44) + seq![v@[44]] + seq![v@[45]] + seq![v@[46]]
        );
        assert(seq![v@[44]] == seq![bool_byte(h.requires_sign_off)]);
        assert(seq![v@[45]] == seq![bool_byte(h.can_change_sale_price)]);
    }
    Some(h)
}

} // verus!
