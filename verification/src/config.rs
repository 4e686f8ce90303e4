//! The wallet's configuration: who owns it and how many must agree.

use vstd::prelude::*;
use crate::address::{copy_addresses, Address};

verus! {

/// The one configuration record of a wallet.
#[derive(Debug)]
pub struct MultisigConfig {
    /// The owners, in the order in which they were given.
    pub owners: Vec<Address>,
    /// How many distinct owners must approve a transaction before it may be
    /// executed.
    pub required_approvals: u32,
    /// How many transactions have been submitted; the id of the latest one.
    pub transaction_count: u32,
}

/// A configuration as a mathematical value.
pub struct ConfigView {
    pub owners: Seq<Address>,
    pub required_approvals: u32,
    pub transaction_count: u32,
}

impl View for MultisigConfig {
    type V = ConfigView;

    open spec fn view(&self) -> ConfigView {
        ConfigView {
            owners: self.owners@,
            required_approvals: self.required_approvals,
            transaction_count: self.transaction_count,
        }
    }
}

impl Clone for MultisigConfig {
    fn clone(&self) -> (r: MultisigConfig)
        ensures
            r@ == self@,
    {
        MultisigConfig {
            owners: copy_addresses(&self.owners),
            required_approvals: self.required_approvals,
            transaction_count: self.transaction_count,
        }
    }
}

/// Whether `required` is a threshold that `owners` owners can meet: at least
/// one approval, at most one per owner.
pub open spec fn threshold_fits(required: u32, owners: nat) -> bool {
    1 <= required <= owners
}

impl ConfigView {
    /// There is an owner, no owner is listed twice, and the threshold can be
    /// met.
    pub open spec fn valid(self) -> bool {
        &&& self.owners.len() >= 1
        &&& self.owners.no_duplicates()
        &&& threshold_fits(self.required_approvals, self.owners.len())
    }
}

/// Whether `owners` owners can meet the threshold `required`.
pub fn check_threshold(required: u32, owners: usize) -> (r: bool)
    ensures
        r == threshold_fits(required, owners as nat),
{
    required != 0 && required as usize <= owners
}

} // verus!
