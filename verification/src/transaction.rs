//! Proposed transfers and the instruction that releases one.

use vstd::prelude::*;
use crate::address::Address;

verus! {

/// A proposed transfer of value, waiting for a quorum or already executed.
#[derive(Clone, Copy, Debug, PartialEq, Eq)]
pub struct Transaction {
    /// Who receives the value.
    pub to: Address,
    /// How much is moved; positive from the moment of submission.
    pub amount: i128,
    /// The asset that is moved.
    pub token: Address,
    /// An opaque payload that travels with the proposal, such as a hash.
    pub data: [u8; 32],
    /// Whether the value has been released.
    pub executed: bool,
    /// How many owners have approved.
    pub approvals: u32,
    /// The owner who submitted the proposal.
    pub submitter: Address,
}

/// The movement of value that the embedding program performs for one
/// execution: `amount` of `token`, from the wallet to `to`.
#[derive(Clone, Copy, Debug, PartialEq, Eq)]
pub struct Transfer {
    /// The transaction that is being executed.
    pub transaction_id: u32,
    /// The asset to move.
    pub token: Address,
    /// Who receives it.
    pub to: Address,
    /// How much of it.
    pub amount: i128,
}

impl Transaction {
    /// The proposal as it stands right after submission: approved by its
    /// submitter alone and not executed.
    pub open spec fn proposed(
        submitter: Address,
        to: Address,
        amount: i128,
        token: Address,
        data: [u8; 32],
    ) -> Transaction {
        Transaction { to, amount, token, data, executed: false, approvals: 1, submitter }
    }

    /// The same proposal with one more approval.
    pub open spec fn approved_once_more(self) -> Transaction {
        Transaction { approvals: (self.approvals + 1) as u32, ..self }
    }

    /// The same proposal with the given execution flag.
    pub open spec fn with_executed(self, executed: bool) -> Transaction {
        Transaction { executed, ..self }
    }

    /// The movement of value that executing this proposal under `id` asks for.
    pub open spec fn transfer(self, id: u32) -> Transfer {
        Transfer { transaction_id: id, token: self.token, to: self.to, amount: self.amount }
    }
}

} // verus!
