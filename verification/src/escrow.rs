//! The atomic value-move primitive that every escrow movement goes through.

use vstd::prelude::*;

use crate::state::TokenAccount;

verus! {

/// Why a transfer refused to move value. Either way neither account changed.
#[derive(Clone, Copy, PartialEq, Eq, Structural, Debug)]
pub enum TransferError {
    /// The source account holds less than the requested amount.
    InsufficientFunds,
    /// The destination balance would not fit in a `u64`.
    RecipientOverflow,
}

/// Moves `amount` from `from` to `to`, entirely or not at all: on success
/// the source loses exactly `amount` and the destination gains exactly
/// `amount`; on failure both accounts are untouched. Addresses, owners and
/// mints never change. The error says exactly which of the two possible
/// obstacles arose.
pub fn transfer(from: &mut TokenAccount, to: &mut TokenAccount, amount: u64) -> (r: Result<
    (),
    TransferError,
>)
    ensures
        match r {
            Ok(_) => {
                &&& old(from).amount >= amount
                &&& old(to).amount + amount <= u64::MAX
                &&& final(from).amount == old(from).amount - amount
                &&& final(to).amount == old(to).amount + amount
                &&& final(from).amount + final(to).amount == old(from).amount + old(to).amount
                &&& final(from).key == old(from).key
                &&& final(from).owner == old(from).owner
                &&& final(from).mint == old(from).mint
                &&& final(to).key == old(to).key
                &&& final(to).owner == old(to).owner
                &&& final(to).mint == old(to).mint
            },
            Err(e) => {
                &&& *final(from) == *old(from)
                &&& *final(to) == *old(to)
                &&& e is InsufficientFunds <==> old(from).amount < amount
                &&& e is RecipientOverflow <==> old(from).amount >= amount && old(to).amount
                    + amount > u64::MAX
            },
        },
{
    if from.amount < amount {
        return Err(TransferError::InsufficientFunds);
    }
    if u64::MAX - to.amount < amount {
        return Err(TransferError::RecipientOverflow);
    }
    from.amount = from.amount - amount;
    to.amount = to.amount + amount;
    Ok(())
}

} // verus!
