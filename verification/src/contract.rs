//! The wallet: configuration, submission, approval, execution and queries
//! over a store of records.
//!
//! Every operation names its caller. That the caller really is who the
//! argument says is established before the call, by whoever embeds the wallet.

use vstd::prelude::*;
use std::collections::HashSet;
use crate::address::{all_distinct, contains_address, copy_addresses, Address};
use crate::config::{check_threshold, threshold_fits, ConfigView, MultisigConfig};
use crate::error::MultisigError;
use crate::model::State;
use crate::store::{RecordKey, Store};
use crate::transaction::{Transaction, Transfer};

verus! {

/// A multi-signature wallet.
pub struct MultisigContract {
    store: Store,
    in_flight: HashSet<u32>,
}

impl View for MultisigContract {
    type V = State;

    closed spec fn view(&self) -> State {
        State {
            config: self.store@.config,
            transactions: self.store@.transactions,
            approvals: self.store@.approvals,
            in_flight: self.in_flight@,
        }
    }
}

impl MultisigContract {
    /// Whether the wallet's invariant holds.
    pub open spec fn inv(&self) -> bool {
        self@.inv()
    }

    /// The keys of the records that the wallet has written and not handed out
    /// yet, in the order of the writes.
    pub closed spec fn written(&self) -> Seq<RecordKey> {
        self.store.journal()
    }

    /// A wallet that has not been initialized and holds no transaction.
    pub fn new() -> (r: MultisigContract)
        ensures
            r@ == State::fresh(),
            r.written() == Seq::<RecordKey>::empty(),
            r.inv(),
    {
        MultisigContract { store: Store::new(), in_flight: HashSet::new() }
    }

    /// The wallet over the records of `store`, with no transfer under way and
    /// nothing written yet. Whether the invariant holds of the wallet is a
    /// matter of the records alone; the operations answer as they state
    /// either way.
    pub fn from_store(store: Store) -> (r: MultisigContract)
        ensures
            r@ == State::of_store(store@),
            r.written() == Seq::<RecordKey>::empty(),
            r.inv() == State::of_store(store@).inv(),
    {
        let mut store = store;
        let _ = store.take_journal();
        MultisigContract { store, in_flight: HashSet::new() }
    }

    /// Hands out the keys of the records written since the last call, in the
    /// order of the writes, for the records to be written to durable storage
    /// in that order. The wallet stays as it is.
    pub fn take_writes(&mut self) -> (r: Vec<RecordKey>)
        ensures
            r@ == old(self).written(),
            final(self).written() == Seq::<RecordKey>::empty(),
            final(self)@ == old(self)@,
    {
        self.store.take_journal()
    }

    /// The wallet's records.
    pub fn store(&self) -> (r: &Store)
        ensures
            r@ == self@.records(),
    {
        &self.store
    }

    // ------------------------------------------------------------------
    // Configuration

    /// Sets the owners and the threshold, once.
    ///
    /// Refused with `AlreadyInitialized` where a configuration exists, else
    /// with `InvalidOwner` where `owners` is empty, else with `DuplicateOwner`
    /// where an identity occurs twice, else with `InvalidThreshold` where
    /// `required_approvals` is zero or exceeds the number of owners.
    pub fn initialize(&mut self, owners: Vec<Address>, required_approvals: u32) -> (r: Result<
        (),
        MultisigError,
    >)
        ensures
            r == old(self)@.initialize_result(owners@, required_approvals),
            final(self)@ == old(self)@.after_initialize(owners@, required_approvals),
            final(self).written() == old(self).written() + old(self)@.initialize_writes(
                owners@,
                required_approvals,
            ),
            r is Err ==> final(self)@ == old(self)@,
            r is Ok ==> final(self)@.config == Some(
                ConfigView { owners: owners@, required_approvals, transaction_count: 0 },
            ),
            old(self)@.config is Some ==> r == Err::<(), _>(MultisigError::AlreadyInitialized),
            old(self)@.config is None && owners@.len() == 0 ==> r == Err::<(), _>(
                MultisigError::InvalidOwner,
            ),
            old(self)@.config is None && !owners@.no_duplicates() ==> r == Err::<(), _>(
                MultisigError::DuplicateOwner,
            ),
            old(self)@.config is None && owners@.len() >= 1 && owners@.no_duplicates()
                && !threshold_fits(required_approvals, owners@.len()) ==> r == Err::<(), _>(
                MultisigError::InvalidThreshold,
            ),
            old(self)@.config is None && owners@.len() >= 1 && owners@.no_duplicates()
                && threshold_fits(required_approvals, owners@.len()) ==> r is Ok,
            old(self).inv() ==> final(self).inv(),
    {
        if self.store.has_config() {
            return Err(MultisigError::AlreadyInitialized);
        }
        if owners.len() == 0 {
            return Err(MultisigError::InvalidOwner);
        }
        if !all_distinct(&owners) {
            return Err(MultisigError::DuplicateOwner);
        }
        if !check_threshold(required_approvals, owners.len()) {
            return Err(MultisigError::InvalidThreshold);
        }
        self.store.set_config(MultisigConfig { owners, required_approvals, transaction_count: 0 });
        Ok(())
    }

    /// The configuration. Refused with `Unauthorized` while the wallet has
    /// none: there is nothing to authorize against.
    pub fn get_config(&self) -> (r: Result<&MultisigConfig, MultisigError>)
        ensures
            r is Ok <==> self@.config is Some,
            r matches Ok(c) ==> self@.config == Some(c@),
            r matches Err(e) ==> e == MultisigError::Unauthorized,
    {
        match self.store.get_config() {
            Some(c) => Ok(c),
            None => Err(MultisigError::Unauthorized),
        }
    }

    /// Passes where `caller` is an owner; anyone else is refused with
    /// `Unauthorized`.
    pub fn verify_owner(&self, caller: &Address) -> (r: Result<(), MultisigError>)
        ensures
            r == (if self@.is_owner(*caller) {
                Ok::<(), MultisigError>(())
            } else {
                Err(MultisigError::Unauthorized)
            }),
    {
        match self.store.get_config() {
            Some(c) => {
                if contains_address(&c.owners, caller) {
                    Ok(())
                } else {
                    Err(MultisigError::Unauthorized)
                }
            },
            None => Err(MultisigError::Unauthorized),
        }
    }

    /// Replaces the threshold. Refused with `Unauthorized` where `caller` is
    /// no owner, else with `InvalidThreshold` where `required_approvals` is
    /// zero or exceeds the number of owners.
    pub fn update_threshold(&mut self, caller: Address, required_approvals: u32) -> (r: Result<
        (),
        MultisigError,
    >)
        ensures
            r == old(self)@.update_threshold_result(caller, required_approvals),
            final(self)@ == old(self)@.after_update_threshold(caller, required_approvals),
            final(self).written() == old(self).written() + old(self)@.update_threshold_writes(
                caller,
                required_approvals,
            ),
            r is Err ==> final(self)@ == old(self)@,
            !old(self)@.is_owner(caller) ==> r == Err::<(), _>(MultisigError::Unauthorized),
            old(self).inv() ==> final(self).inv(),
    {
        let updated = match self.store.get_config() {
            Some(c) => {
                if !contains_address(&c.owners, &caller) {
                    return Err(MultisigError::Unauthorized);
                }
                if !check_threshold(required_approvals, c.owners.len()) {
                    return Err(MultisigError::InvalidThreshold);
                }
                let mut updated = c.clone();
                updated.required_approvals = required_approvals;
                updated
            },
            None => {
                return Err(MultisigError::Unauthorized);
            },
        };
        self.store.set_config(updated);
        Ok(())
    }

    // ------------------------------------------------------------------
    // Registry

    /// The id that the next submission gets: one more than the number of
    /// submissions so far. Refused with `Unauthorized` while the wallet has no
    /// configuration, and with `ArithmeticError` where the number cannot grow;
    /// it never wraps around.
    pub fn next_id(&self) -> (r: Result<u32, MultisigError>)
        ensures
            r == self@.next_id_result(),
    {
        match self.store.get_config() {
            Some(c) => match c.transaction_count.checked_add(1) {
                Some(id) => Ok(id),
                None => Err(MultisigError::ArithmeticError),
            },
            None => Err(MultisigError::Unauthorized),
        }
    }

    /// The transaction recorded under `id`; `TransactionNotFound` where there
    /// is none.
    fn transaction(&self, id: u32) -> (r: Result<Transaction, MultisigError>)
        ensures
            r == (match self@.records().transaction(id) {
                Some(t) => Ok::<Transaction, MultisigError>(t),
                None => Err(MultisigError::TransactionNotFound),
            }),
    {
        match self.store.get_transaction(id) {
            Some(t) => Ok(t),
            None => Err(MultisigError::TransactionNotFound),
        }
    }

    /// Those who approved the transaction `id`, as a list of its own; an empty
    /// list where none is recorded.
    fn approvers(&self, id: u32) -> (r: Vec<Address>)
        ensures
            r@ == self@.approvers(id),
    {
        match self.store.get_approvals(id) {
            Some(list) => copy_addresses(list),
            None => Vec::new(),
        }
    }

    // ------------------------------------------------------------------
    // Submission

    /// Checks what a proposal carries: the amount must be positive.
    pub fn validate_transaction_inputs(_to: &Address, amount: i128, _token: &Address) -> (r:
        Result<(), MultisigError>)
        ensures
            r == (if amount > 0 {
                Ok::<(), MultisigError>(())
            } else {
                Err(MultisigError::InvalidAmount)
            }),
    {
        if amount <= 0 {
            return Err(MultisigError::InvalidAmount);
        }
        Ok(())
    }

    /// Records a proposal to move `amount` of `token` to `to`, approved by its
    /// submitter, and returns its id.
    ///
    /// Refused with `Unauthorized` where `caller` is no owner, else with
    /// `InvalidAmount` where `amount` is not positive, else with
    /// `ArithmeticError` where the count of transactions cannot grow.
    pub fn submit_transaction(
        &mut self,
        caller: Address,
        to: Address,
        amount: i128,
        token: Address,
        data: [u8; 32],
    ) -> (r: Result<u32, MultisigError>)
        ensures
            r == old(self)@.submit_result(caller, amount),
            final(self)@ == old(self)@.after_submit(caller, to, amount, token, data),
            final(self).written() == old(self).written() + old(self)@.submit_writes(caller, amount),
            r is Err ==> final(self)@ == old(self)@,
            r matches Ok(id) ==> id == old(self)@.config->0.transaction_count + 1,
            r matches Ok(id) ==> final(self)@.config->0.transaction_count == id,
            r matches Ok(id) ==> final(self)@.transactions[id] == Transaction::proposed(
                caller,
                to,
                amount,
                token,
                data,
            ),
            r matches Ok(id) ==> final(self)@.transactions[id].approvals == 1,
            r matches Ok(id) ==> !final(self)@.transactions[id].executed,
            r matches Ok(id) ==> final(self)@.approvals[id] == seq![caller],
            !old(self)@.is_owner(caller) ==> r == Err::<u32, _>(MultisigError::Unauthorized),
            old(self)@.is_owner(caller) && amount <= 0 ==> r == Err::<u32, _>(
                MultisigError::InvalidAmount,
            ),
            amount <= 0 ==> r is Err && final(self)@.config == old(self)@.config,
            old(self).inv() ==> final(self).inv(),
    {
        match self.verify_owner(&caller) {
            Ok(()) => {},
            Err(e) => {
                return Err(e);
            },
        }
        match Self::validate_transaction_inputs(&to, amount, &token) {
            Ok(()) => {},
            Err(e) => {
                return Err(e);
            },
        }
        let new_count: u32 = match self.next_id() {
            Ok(id) => id,
            Err(e) => {
                return Err(e);
            },
        };
        let mut updated = match self.get_config() {
            Ok(c) => c.clone(),
            Err(e) => {
                return Err(e);
            },
        };
        updated.transaction_count = new_count;
        let transaction = Transaction {
            to,
            amount,
            token,
            data,
            executed: false,
            approvals: 1,
            submitter: caller,
        };
        self.store.set_config(updated);
        self.store.set_transaction(new_count, transaction);
        let mut approvals: Vec<Address> = Vec::new();
        approvals.push(caller);
        self.store.set_approvals(new_count, approvals);
        Ok(new_count)
    }

    // ------------------------------------------------------------------
    // Approval

    /// Adds `caller`'s approval to the transaction `transaction_id`.
    ///
    /// Refused with `Unauthorized` where `caller` is no owner, else with
    /// `TransactionNotFound` where no such transaction exists, else with
    /// `TransactionExecuted` where it has been executed, else with
    /// `AlreadyApproved` where `caller` has approved it before, else with
    /// `ArithmeticError` where the count of approvals cannot grow.
    pub fn approve_transaction(&mut self, caller: Address, transaction_id: u32) -> (r: Result<
        (),
        MultisigError,
    >)
        ensures
            r == old(self)@.approve_result(caller, transaction_id),
            final(self)@ == old(self)@.after_approve(caller, transaction_id),
            final(self).written() == old(self).written() + old(self)@.approve_writes(
                caller,
                transaction_id,
            ),
            r is Err ==> final(self)@ == old(self)@,
            r is Ok ==> final(self)@.transactions[transaction_id].approvals == old(
                self,
            )@.transactions[transaction_id].approvals + 1,
            r is Ok ==> final(self)@.approvals[transaction_id] == old(self)@.approvers(
                transaction_id,
            ).push(caller),
            !old(self)@.is_owner(caller) ==> r == Err::<(), _>(MultisigError::Unauthorized),
            old(self)@.is_owner(caller) && !old(self)@.transactions.contains_key(transaction_id)
                ==> r == Err::<(), _>(MultisigError::TransactionNotFound),
            old(self)@.is_owner(caller) && old(self)@.is_executed(transaction_id) ==> r == Err::<
                (),
                _,
            >(MultisigError::TransactionExecuted),
            old(self)@.is_owner(caller) && old(self)@.is_waiting(transaction_id) && old(
                self,
            )@.approvers(transaction_id).contains(caller) ==> r == Err::<(), _>(
                MultisigError::AlreadyApproved,
            ),
            old(self).inv() ==> final(self).inv(),
    {
        match self.verify_owner(&caller) {
            Ok(()) => {},
            Err(e) => {
                return Err(e);
            },
        }
        let mut transaction = match self.transaction(transaction_id) {
            Ok(t) => t,
            Err(e) => {
                return Err(e);
            },
        };
        if transaction.executed {
            return Err(MultisigError::TransactionExecuted);
        }
        let mut approvals: Vec<Address> = self.approvers(transaction_id);
        if contains_address(&approvals, &caller) {
            return Err(MultisigError::AlreadyApproved);
        }
        let new_approvals: u32 = match transaction.approvals.checked_add(1) {
            Some(n) => n,
            None => {
                return Err(MultisigError::ArithmeticError);
            },
        };
        transaction.approvals = new_approvals;
        self.store.set_transaction(transaction_id, transaction);
        approvals.push(caller);
        self.store.set_approvals(transaction_id, approvals);
        Ok(())
    }

    // ------------------------------------------------------------------
    // Execution

    /// Begins the execution of the transaction `transaction_id`: marks it as
    /// executed and returns the transfer to perform. The mark is set, and
    /// written, before any value moves, so that whatever the transfer sets off
    /// finds the transaction executed. The outcome of the transfer is then
    /// reported to [`MultisigContract::settle_transfer`].
    ///
    /// Refused with `Unauthorized` where `caller` is no owner, else with
    /// `TransactionNotFound` where no such transaction exists, else with
    /// `TransactionExecuted` where it has been executed, else with
    /// `InsufficientApprovals` where fewer owners have approved than the
    /// threshold asks for.
    pub fn execute_transaction(&mut self, caller: Address, transaction_id: u32) -> (r: Result<
        Transfer,
        MultisigError,
    >)
        ensures
            r == old(self)@.execute_result(caller, transaction_id),
            final(self)@ == old(self)@.after_execute(caller, transaction_id),
            final(self).written() == old(self).written() + old(self)@.execute_writes(
                caller,
                transaction_id,
            ),
            r is Err ==> final(self)@ == old(self)@,
            r is Ok ==> final(self)@.is_executed(transaction_id) && final(self)@.in_flight.contains(
                transaction_id,
            ),
            !old(self)@.is_owner(caller) ==> r == Err::<Transfer, _>(MultisigError::Unauthorized),
            old(self)@.is_owner(caller) && !old(self)@.transactions.contains_key(transaction_id)
                ==> r == Err::<Transfer, _>(MultisigError::TransactionNotFound),
            old(self)@.is_owner(caller) && old(self)@.is_executed(transaction_id) ==> r == Err::<
                Transfer,
                _,
            >(MultisigError::TransactionExecuted),
            old(self)@.is_owner(caller) && old(self)@.is_waiting(transaction_id) && old(
                self,
            )@.lacks_quorum(transaction_id) ==> r == Err::<Transfer, _>(
                MultisigError::InsufficientApprovals,
            ) && final(self)@.is_waiting(transaction_id),
            old(self).inv() ==> final(self).inv(),
    {
        broadcast use vstd::std_specs::hash::group_hash_axioms;

        match self.verify_owner(&caller) {
            Ok(()) => {},
            Err(e) => {
                return Err(e);
            },
        }
        let mut transaction = match self.transaction(transaction_id) {
            Ok(t) => t,
            Err(e) => {
                return Err(e);
            },
        };
        if transaction.executed {
            return Err(MultisigError::TransactionExecuted);
        }
        let required: u32 = match self.get_config() {
            Ok(c) => c.required_approvals,
            Err(e) => {
                return Err(e);
            },
        };
        if transaction.approvals < required {
            return Err(MultisigError::InsufficientApprovals);
        }
        transaction.executed = true;
        self.store.set_transaction(transaction_id, transaction);
        self.in_flight.insert(transaction_id);
        Ok(
            Transfer {
                transaction_id,
                token: transaction.token,
                to: transaction.to,
                amount: transaction.amount,
            },
        )
    }

    /// Ends the execution of the transaction `transaction_id` with the outcome
    /// of its transfer. Where the value was moved, the execution is final.
    /// Where it was not, the mark is taken back and `TokenTransferFailed` is
    /// reported: the approvals stand, and the transaction can be executed
    /// again.
    ///
    /// Answers `TransactionNotFound`, and changes nothing, where no transfer
    /// of that transaction is under way.
    pub fn settle_transfer(&mut self, transaction_id: u32, transferred: bool) -> (r: Result<
        (),
        MultisigError,
    >)
        ensures
            r == old(self)@.settle_result(transaction_id, transferred),
            final(self)@ == old(self)@.after_settle(transaction_id, transferred),
            final(self).written() == old(self).written() + old(self)@.settle_writes(
                transaction_id,
                transferred,
            ),
            !old(self)@.in_flight.contains(transaction_id) ==> final(self)@ == old(self)@,
            !final(self)@.in_flight.contains(transaction_id),
            old(self)@.in_flight.contains(transaction_id) && old(self)@.transactions.contains_key(
                transaction_id,
            ) ==> final(self)@.transactions[transaction_id] == old(
                self,
            )@.transactions[transaction_id].with_executed(
                transferred && old(self)@.transactions[transaction_id].executed,
            ),
            old(self).inv() ==> final(self).inv(),
    {
        broadcast use vstd::std_specs::hash::group_hash_axioms;

        if !self.in_flight.remove(&transaction_id) {
            assert(self.in_flight@ =~= old(self).in_flight@);
            return Err(MultisigError::TransactionNotFound);
        }
        if transferred {
            return Ok(());
        }
        match self.store.get_transaction(transaction_id) {
            Some(t) => {
                let mut transaction = t;
                transaction.executed = false;
                self.store.set_transaction(transaction_id, transaction);
            },
            None => {},
        }
        Err(MultisigError::TokenTransferFailed)
    }

    // ------------------------------------------------------------------
    // Queries

    /// The transaction `transaction_id`. Refused with `Unauthorized` where
    /// `caller` is no owner, else with `TransactionNotFound` where no such
    /// transaction exists.
    pub fn get_transaction(&self, caller: Address, transaction_id: u32) -> (r: Result<
        Transaction,
        MultisigError,
    >)
        ensures
            r == self@.transaction_for(caller, transaction_id),
            !self@.is_owner(caller) ==> r == Err::<Transaction, _>(MultisigError::Unauthorized),
    {
        match self.verify_owner(&caller) {
            Ok(()) => {},
            Err(e) => {
                return Err(e);
            },
        }
        self.transaction(transaction_id)
    }

    /// Those who approved the transaction `transaction_id`, in the order in
    /// which they did; an empty list where none is recorded under that id.
    /// Refused with `Unauthorized` where `caller` is no owner, and for no
    /// other reason.
    pub fn get_approvals(&self, caller: Address, transaction_id: u32) -> (r: Result<
        Vec<Address>,
        MultisigError,
    >)
        ensures
            r matches Ok(list) ==> self@.approvals_for(caller, transaction_id) == Ok::<
                _,
                MultisigError,
            >(list@),
            r matches Err(e) ==> self@.approvals_for(caller, transaction_id) == Err::<
                Seq<Address>,
                _,
            >(e),
            r is Ok <==> self@.is_owner(caller),
            r matches Ok(list) ==> list@ == self@.approvers(transaction_id),
            r matches Err(e) ==> e == MultisigError::Unauthorized,
    {
        match self.verify_owner(&caller) {
            Ok(()) => {},
            Err(e) => {
                return Err(e);
            },
        }
        Ok(self.approvers(transaction_id))
    }

    /// Whether `address` is an owner. Open to anyone. Refused with
    /// `Unauthorized` while the wallet has no configuration.
    pub fn is_owner(&self, address: Address) -> (r: Result<bool, MultisigError>)
        ensures
            r == self@.owner_query(address),
    {
        match self.get_config() {
            Ok(c) => Ok(contains_address(&c.owners, &address)),
            Err(e) => Err(e),
        }
    }

    /// The number of owners. Refused with `Unauthorized` while the wallet has
    /// no configuration, and with `ArithmeticError` where the number does not
    /// fit the result.
    pub fn get_owner_count(&self) -> (r: Result<u32, MultisigError>)
        ensures
            r == self@.owner_count(),
    {
        match self.get_config() {
            Ok(c) => {
                let n: usize = c.owners.len();
                if n > 0xffff_ffff {
                    Err(MultisigError::ArithmeticError)
                } else {
                    Ok(n as u32)
                }
            },
            Err(e) => Err(e),
        }
    }

    /// The threshold. Refused with `Unauthorized` while the wallet has no
    /// configuration.
    pub fn get_threshold(&self) -> (r: Result<u32, MultisigError>)
        ensures
            r == self@.threshold(),
    {
        match self.get_config() {
            Ok(c) => Ok(c.required_approvals),
            Err(e) => Err(e),
        }
    }

    /// The number of transactions submitted so far. Refused with
    /// `Unauthorized` while the wallet has no configuration.
    pub fn get_transaction_count(&self) -> (r: Result<u32, MultisigError>)
        ensures
            r == self@.transaction_count(),
    {
        match self.get_config() {
            Ok(c) => Ok(c.transaction_count),
            Err(e) => Err(e),
        }
    }
}

} // verus!
