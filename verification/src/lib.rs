//! An escrow-backed auction house, modelled as a verified state machine.
//!
//! Sellers list a tokenized asset with a minimum price and a deadline;
//! bidders escrow funds atomically with each bid; the auction resolves by
//! handing the asset to the winner, or by cancellation returning it to the
//! seller. The library holds the lifecycle engine itself: which transitions
//! are legal, what value movement accompanies each one, and the invariants
//! that survive any sequence of operations. The surrounding system — a keyed
//! record store that serializes operations per record, and the authenticated
//! callers — hands each operation plain values and writes the results back.
//!
//! [`state`] holds the record kinds and their well-formedness; [`escrow`]
//! the atomic value-move primitive; [`lifecycle`] the five operations with
//! their exact success and failure contracts; [`trace`] the transition
//! system the operations are proved to follow, and the laws that hold along
//! every history; [`codec`] the canonical persisted byte form of each
//! record kind, with decoding proved exact.

pub mod codec;
pub mod escrow;
pub mod lifecycle;
pub mod state;
pub mod trace;
