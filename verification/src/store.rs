//! The records of a wallet, held in memory: one configuration, and under each
//! transaction id a transaction and the list of those who approved it.
//!
//! The store keeps a journal of the records that were written, in the order
//! of the writes. Whoever keeps the records on durable storage writes them
//! there in that order.

use vstd::prelude::*;
use std::collections::HashMap;
use crate::address::Address;
use crate::config::{ConfigView, MultisigConfig};
use crate::transaction::Transaction;

verus! {

/// The key of a record.
#[derive(Copy, Clone, Debug, Eq, PartialEq, Structural)]
pub enum RecordKey {
    /// The configuration.
    Config,
    /// The transaction with the given id.
    Transaction(u32),
    /// The approval list of the transaction with the given id.
    Approvals(u32),
}

/// A keyed store of the wallet's records. Each record is read and written as
/// a unit; a record is never deleted.
pub struct Store {
    config: Option<MultisigConfig>,
    transactions: HashMap<u32, Transaction>,
    approvals: HashMap<u32, Vec<Address>>,
    journal: Vec<RecordKey>,
}

/// The records of a store as a mathematical value. The journal of writes is
/// no record: [`Store::journal`] states it.
#[verifier::ext_equal]
pub struct StoreView {
    pub config: Option<ConfigView>,
    pub transactions: Map<u32, Transaction>,
    pub approvals: Map<u32, Seq<Address>>,
}

impl StoreView {
    /// The store that holds no record.
    pub open spec fn empty() -> StoreView {
        StoreView { config: None, transactions: Map::empty(), approvals: Map::empty() }
    }

    /// The transaction stored under `id`, if there is one.
    pub open spec fn transaction(self, id: u32) -> Option<Transaction> {
        if self.transactions.contains_key(id) {
            Some(self.transactions[id])
        } else {
            None
        }
    }
}

/// The approval lists of a map, each as a sequence.
spec fn lists_of(m: Map<u32, Vec<Address>>) -> Map<u32, Seq<Address>> {
    Map::new(|id: u32| m.contains_key(id), |id: u32| m[id]@)
}

impl View for Store {
    type V = StoreView;

    closed spec fn view(&self) -> StoreView {
        StoreView {
            config: match self.config {
                Some(c) => Some(c@),
                None => None,
            },
            transactions: self.transactions@,
            approvals: lists_of(self.approvals@),
        }
    }
}

impl Store {
    /// The keys of the records written since the journal was last taken, in
    /// the order of the writes.
    pub closed spec fn journal(&self) -> Seq<RecordKey> {
        self.journal@
    }

    /// A store without records.
    pub fn new() -> (r: Store)
        ensures
            r@ == StoreView::empty(),
            r.journal() == Seq::<RecordKey>::empty(),
    {
        let r = Store {
            config: None,
            transactions: HashMap::new(),
            approvals: HashMap::new(),
            journal: Vec::new(),
        };
        assert(lists_of(r.approvals@) =~= Map::empty());
        r
    }

    /// Hands out the journal and starts a new one. The records stay as they
    /// are.
    pub fn take_journal(&mut self) -> (r: Vec<RecordKey>)
        ensures
            r@ == old(self).journal(),
            final(self).journal() == Seq::<RecordKey>::empty(),
            final(self)@ == old(self)@,
    {
        let mut taken: Vec<RecordKey> = Vec::new();
        std::mem::swap(&mut self.journal, &mut taken);
        taken
    }

    /// Whether a configuration is stored.
    pub fn has_config(&self) -> (r: bool)
        ensures
            r == self@.config is Some,
    {
        self.config.is_some()
    }

    /// The stored configuration, if there is one.
    pub fn get_config(&self) -> (r: Option<&MultisigConfig>)
        ensures
            r is Some <==> self@.config is Some,
            r matches Some(c) ==> self@.config == Some(c@),
    {
        self.config.as_ref()
    }

    /// Stores `config`, in place of the one stored before.
    pub fn set_config(&mut self, config: MultisigConfig)
        ensures
            final(self)@ == (StoreView { config: Some(config@), ..old(self)@ }),
            final(self).journal() == old(self).journal().push(RecordKey::Config),
    {
        self.config = Some(config);
        self.journal.push(RecordKey::Config);
    }

    /// The transaction stored under `id`, if there is one.
    pub fn get_transaction(&self, id: u32) -> (r: Option<Transaction>)
        ensures
            r == self@.transaction(id),
    {
        broadcast use vstd::std_specs::hash::group_hash_axioms;

        match self.transactions.get(&id) {
            Some(t) => Some(*t),
            None => None,
        }
    }

    /// Stores `transaction` under `id`, in place of the one stored there
    /// before.
    pub fn set_transaction(&mut self, id: u32, transaction: Transaction)
        ensures
            final(self)@ == (StoreView {
                transactions: old(self)@.transactions.insert(id, transaction),
                ..old(self)@
            }),
            final(self).journal() == old(self).journal().push(RecordKey::Transaction(id)),
    {
        broadcast use vstd::std_specs::hash::group_hash_axioms;

        self.transactions.insert(id, transaction);
        self.journal.push(RecordKey::Transaction(id));
    }

    /// The approval list stored under `id`, if there is one.
    pub fn get_approvals(&self, id: u32) -> (r: Option<&Vec<Address>>)
        ensures
            r is Some <==> self@.approvals.contains_key(id),
            r matches Some(list) ==> list@ == self@.approvals[id],
    {
        broadcast use vstd::std_specs::hash::group_hash_axioms;

        self.approvals.get(&id)
    }

    /// Stores `list` as the approval list under `id`, in place of the one
    /// stored there before.
    pub fn set_approvals(&mut self, id: u32, list: Vec<Address>)
        ensures
            final(self)@ == (StoreView {
                approvals: old(self)@.approvals.insert(id, list@),
                ..old(self)@
            }),
            final(self).journal() == old(self).journal().push(RecordKey::Approvals(id)),
    {
        broadcast use vstd::std_specs::hash::group_hash_axioms;

        self.approvals.insert(id, list);
        self.journal.push(RecordKey::Approvals(id));
        assert(lists_of(self.approvals@) =~= lists_of(old(self).approvals@).insert(id, list@));
    }
}

} // verus!
