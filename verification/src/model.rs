//! The wallet as a mathematical state machine: its state, for each operation
//! the failure it reports and the state it leaves, and the invariant that
//! every operation keeps.

use vstd::prelude::*;
use crate::address::Address;
use crate::config::{threshold_fits, ConfigView};
use crate::error::MultisigError;
use crate::store::{RecordKey, StoreView};
use crate::transaction::{Transaction, Transfer};

verus! {

/// The state of a wallet.
#[verifier::ext_equal]
pub struct State {
    /// The configuration, once the wallet has been initialized.
    pub config: Option<ConfigView>,
    /// The transactions, by id.
    pub transactions: Map<u32, Transaction>,
    /// For each id, those who approved the transaction, in the order in which
    /// they did.
    pub approvals: Map<u32, Seq<Address>>,
    /// The transactions whose value is being moved right now: marked as
    /// executed, with the outcome of the transfer still to come.
    pub in_flight: Set<u32>,
}

/// An operation that changes a wallet, with its arguments.
pub enum Operation {
    Initialize { owners: Seq<Address>, required: u32 },
    UpdateThreshold { caller: Address, required: u32 },
    Submit { caller: Address, to: Address, amount: i128, token: Address, data: [u8; 32] },
    Approve { caller: Address, id: u32 },
    Execute { caller: Address, id: u32 },
    Settle { id: u32, transferred: bool },
}

/// The answer of an operation that hands nothing back: `Ok` unless it is
/// refused.
pub open spec fn verdict(refusal: Option<MultisigError>) -> Result<(), MultisigError> {
    match refusal {
        Some(e) => Err(e),
        None => Ok(()),
    }
}

impl Operation {
    /// The transaction that the operation names, if it names one.
    pub open spec fn target(self) -> Option<u32> {
        match self {
            Operation::Approve { id, .. } => Some(id),
            Operation::Execute { id, .. } => Some(id),
            Operation::Settle { id, .. } => Some(id),
            _ => None,
        }
    }

    /// The caller whom the operation checks against the owners. `Initialize`
    /// checks nobody, for there are no owners yet; `Settle` reports on a
    /// transfer that an owner's `Execute` began.
    pub open spec fn gated_caller(self) -> Option<Address> {
        match self {
            Operation::Initialize { .. } => None,
            Operation::UpdateThreshold { caller, .. } => Some(caller),
            Operation::Submit { caller, .. } => Some(caller),
            Operation::Approve { caller, .. } => Some(caller),
            Operation::Execute { caller, .. } => Some(caller),
            Operation::Settle { .. } => None,
        }
    }
}

impl State {
    /// The state of a wallet that has not been initialized: no record, no
    /// transfer under way.
    pub open spec fn fresh() -> State {
        State::of_store(StoreView::empty())
    }

    /// The state over the records of `store`, with no transfer under way.
    pub open spec fn of_store(store: StoreView) -> State {
        State {
            config: store.config,
            transactions: store.transactions,
            approvals: store.approvals,
            in_flight: Set::empty(),
        }
    }

    /// The records of the state.
    pub open spec fn records(self) -> StoreView {
        StoreView {
            config: self.config,
            transactions: self.transactions,
            approvals: self.approvals,
        }
    }

    /// Whether `who` is one of the owners. Nobody owns a wallet that has not
    /// been initialized.
    pub open spec fn is_owner(self, who: Address) -> bool {
        self.config matches Some(c) && c.owners.contains(who)
    }

    /// Those who approved the transaction `id`; nobody, where no list is
    /// recorded.
    pub open spec fn approvers(self, id: u32) -> Seq<Address> {
        if self.approvals.contains_key(id) {
            self.approvals[id]
        } else {
            Seq::empty()
        }
    }

    /// Whether the transaction `id` exists and has been executed.
    pub open spec fn is_executed(self, id: u32) -> bool {
        self.transactions.contains_key(id) && self.transactions[id].executed
    }

    /// Whether the transaction `id` exists and has not been executed.
    pub open spec fn is_waiting(self, id: u32) -> bool {
        self.transactions.contains_key(id) && !self.transactions[id].executed
    }

    /// Whether the transaction `id` has fewer approvals than the threshold
    /// asks for.
    pub open spec fn lacks_quorum(self, id: u32) -> bool {
        self.config matches Some(c) && self.transactions[id].approvals < c.required_approvals
    }

    // ------------------------------------------------------------------
    // Configuration

    /// Why `initialize` refuses, if it does. The checks run in this order and
    /// the first that fails decides.
    pub open spec fn initialize_refusal(self, owners: Seq<Address>, required: u32) -> Option<
        MultisigError,
    > {
        if self.config is Some {
            Some(MultisigError::AlreadyInitialized)
        } else if owners.len() == 0 {
            Some(MultisigError::InvalidOwner)
        } else if !owners.no_duplicates() {
            Some(MultisigError::DuplicateOwner)
        } else if !threshold_fits(required, owners.len()) {
            Some(MultisigError::InvalidThreshold)
        } else {
            None
        }
    }

    /// What `initialize` answers.
    pub open spec fn initialize_result(self, owners: Seq<Address>, required: u32) -> Result<
        (),
        MultisigError,
    > {
        verdict(self.initialize_refusal(owners, required))
    }

    /// The state that `initialize` leaves.
    pub open spec fn after_initialize(self, owners: Seq<Address>, required: u32) -> State {
        if self.initialize_refusal(owners, required) is None {
            State {
                config: Some(
                    ConfigView { owners, required_approvals: required, transaction_count: 0 },
                ),
                ..self
            }
        } else {
            self
        }
    }

    /// The records that `initialize` writes.
    pub open spec fn initialize_writes(self, owners: Seq<Address>, required: u32) -> Seq<
        RecordKey,
    > {
        if self.initialize_refusal(owners, required) is None {
            seq![RecordKey::Config]
        } else {
            Seq::empty()
        }
    }

    /// Why `update_threshold` refuses, if it does.
    pub open spec fn update_threshold_refusal(self, caller: Address, required: u32) -> Option<
        MultisigError,
    > {
        if !self.is_owner(caller) {
            Some(MultisigError::Unauthorized)
        } else if !threshold_fits(required, self.config->0.owners.len()) {
            Some(MultisigError::InvalidThreshold)
        } else {
            None
        }
    }

    /// What `update_threshold` answers.
    pub open spec fn update_threshold_result(self, caller: Address, required: u32) -> Result<
        (),
        MultisigError,
    > {
        verdict(self.update_threshold_refusal(caller, required))
    }

    /// The state that `update_threshold` leaves.
    pub open spec fn after_update_threshold(self, caller: Address, required: u32) -> State {
        if self.update_threshold_refusal(caller, required) is None {
            State {
                config: Some(ConfigView { required_approvals: required, ..self.config->0 }),
                ..self
            }
        } else {
            self
        }
    }

    /// The records that `update_threshold` writes.
    pub open spec fn update_threshold_writes(self, caller: Address, required: u32) -> Seq<
        RecordKey,
    > {
        if self.update_threshold_refusal(caller, required) is None {
            seq![RecordKey::Config]
        } else {
            Seq::empty()
        }
    }

    // ------------------------------------------------------------------
    // Submission

    /// Why `submit_transaction` refuses, if it does.
    pub open spec fn submit_refusal(self, caller: Address, amount: i128) -> Option<MultisigError> {
        if !self.is_owner(caller) {
            Some(MultisigError::Unauthorized)
        } else if amount <= 0 {
            Some(MultisigError::InvalidAmount)
        } else if self.config->0.transaction_count == u32::MAX {
            Some(MultisigError::ArithmeticError)
        } else {
            None
        }
    }

    /// The id that the next submission gets: one more than the number of
    /// submissions so far.
    pub open spec fn next_id(self) -> int {
        self.config->0.transaction_count + 1
    }

    /// What `next_id` answers: the next id, where there is a configuration
    /// and the id fits its type.
    pub open spec fn next_id_result(self) -> Result<u32, MultisigError> {
        if self.config is None {
            Err(MultisigError::Unauthorized)
        } else if self.next_id() > u32::MAX {
            Err(MultisigError::ArithmeticError)
        } else {
            Ok(self.next_id() as u32)
        }
    }

    /// What `submit_transaction` answers: the new id, unless it refuses.
    pub open spec fn submit_result(self, caller: Address, amount: i128) -> Result<
        u32,
        MultisigError,
    > {
        match self.submit_refusal(caller, amount) {
            Some(e) => Err(e),
            None => Ok(self.next_id() as u32),
        }
    }

    /// The state that `submit_transaction` leaves.
    pub open spec fn after_submit(
        self,
        caller: Address,
        to: Address,
        amount: i128,
        token: Address,
        data: [u8; 32],
    ) -> State {
        if self.submit_refusal(caller, amount) is None {
            let id = self.next_id() as u32;
            State {
                config: Some(ConfigView { transaction_count: id, ..self.config->0 }),
                transactions: self.transactions.insert(
                    id,
                    Transaction::proposed(caller, to, amount, token, data),
                ),
                approvals: self.approvals.insert(id, seq![caller]),
                ..self
            }
        } else {
            self
        }
    }

    /// The records that `submit_transaction` writes, in the order of the
    /// writes: the count of submissions first, then the records it makes room
    /// for. A count without its records can be mended; records beyond the
    /// count cannot.
    pub open spec fn submit_writes(self, caller: Address, amount: i128) -> Seq<RecordKey> {
        if self.submit_refusal(caller, amount) is None {
            let id = self.next_id() as u32;
            seq![RecordKey::Config, RecordKey::Transaction(id), RecordKey::Approvals(id)]
        } else {
            Seq::empty()
        }
    }

    // ------------------------------------------------------------------
    // Approval

    /// Why `approve_transaction` refuses, if it does.
    pub open spec fn approve_refusal(self, caller: Address, id: u32) -> Option<MultisigError> {
        if !self.is_owner(caller) {
            Some(MultisigError::Unauthorized)
        } else if !self.transactions.contains_key(id) {
            Some(MultisigError::TransactionNotFound)
        } else if self.transactions[id].executed {
            Some(MultisigError::TransactionExecuted)
        } else if self.approvers(id).contains(caller) {
            Some(MultisigError::AlreadyApproved)
        } else if self.transactions[id].approvals == u32::MAX {
            Some(MultisigError::ArithmeticError)
        } else {
            None
        }
    }

    /// What `approve_transaction` answers.
    pub open spec fn approve_result(self, caller: Address, id: u32) -> Result<(), MultisigError> {
        verdict(self.approve_refusal(caller, id))
    }

    /// The state that `approve_transaction` leaves.
    pub open spec fn after_approve(self, caller: Address, id: u32) -> State {
        if self.approve_refusal(caller, id) is None {
            State {
                transactions: self.transactions.insert(
                    id,
                    self.transactions[id].approved_once_more(),
                ),
                approvals: self.approvals.insert(id, self.approvers(id).push(caller)),
                ..self
            }
        } else {
            self
        }
    }

    /// The records that `approve_transaction` writes, in the order of the
    /// writes: the transaction, then its approval list.
    pub open spec fn approve_writes(self, caller: Address, id: u32) -> Seq<RecordKey> {
        if self.approve_refusal(caller, id) is None {
            seq![RecordKey::Transaction(id), RecordKey::Approvals(id)]
        } else {
            Seq::empty()
        }
    }

    // ------------------------------------------------------------------
    // Execution

    /// Why `execute_transaction` refuses, if it does.
    pub open spec fn execute_refusal(self, caller: Address, id: u32) -> Option<MultisigError> {
        if !self.is_owner(caller) {
            Some(MultisigError::Unauthorized)
        } else if !self.transactions.contains_key(id) {
            Some(MultisigError::TransactionNotFound)
        } else if self.transactions[id].executed {
            Some(MultisigError::TransactionExecuted)
        } else if self.transactions[id].approvals < self.config->0.required_approvals {
            Some(MultisigError::InsufficientApprovals)
        } else {
            None
        }
    }

    /// What `execute_transaction` answers: the transfer to perform, unless it
    /// refuses.
    pub open spec fn execute_result(self, caller: Address, id: u32) -> Result<
        Transfer,
        MultisigError,
    > {
        match self.execute_refusal(caller, id) {
            Some(e) => Err(e),
            None => Ok(self.transactions[id].transfer(id)),
        }
    }

    /// The state that `execute_transaction` leaves: the transaction is marked
    /// as executed before any value moves, and its transfer is under way.
    pub open spec fn after_execute(self, caller: Address, id: u32) -> State {
        if self.execute_refusal(caller, id) is None {
            State {
                transactions: self.transactions.insert(
                    id,
                    self.transactions[id].with_executed(true),
                ),
                in_flight: self.in_flight.insert(id),
                ..self
            }
        } else {
            self
        }
    }

    /// The records that `execute_transaction` writes: the transaction, with
    /// its mark.
    pub open spec fn execute_writes(self, caller: Address, id: u32) -> Seq<RecordKey> {
        if self.execute_refusal(caller, id) is None {
            seq![RecordKey::Transaction(id)]
        } else {
            Seq::empty()
        }
    }

    /// Why `settle_transfer` reports a failure, if it does.
    pub open spec fn settle_refusal(self, id: u32, transferred: bool) -> Option<MultisigError> {
        if !self.in_flight.contains(id) {
            Some(MultisigError::TransactionNotFound)
        } else if !transferred {
            Some(MultisigError::TokenTransferFailed)
        } else {
            None
        }
    }

    /// What `settle_transfer` answers.
    pub open spec fn settle_result(self, id: u32, transferred: bool) -> Result<(), MultisigError> {
        verdict(self.settle_refusal(id, transferred))
    }

    /// The state that `settle_transfer` leaves. A transfer that went through
    /// makes the execution final; one that failed takes the mark back, so that
    /// the transaction can be executed again.
    pub open spec fn after_settle(self, id: u32, transferred: bool) -> State {
        if !self.in_flight.contains(id) {
            self
        } else if transferred || !self.transactions.contains_key(id) {
            State { in_flight: self.in_flight.remove(id), ..self }
        } else {
            State {
                transactions: self.transactions.insert(
                    id,
                    self.transactions[id].with_executed(false),
                ),
                in_flight: self.in_flight.remove(id),
                ..self
            }
        }
    }

    /// The records that `settle_transfer` writes: the transaction, where the
    /// mark is taken back.
    pub open spec fn settle_writes(self, id: u32, transferred: bool) -> Seq<RecordKey> {
        if self.in_flight.contains(id) && !transferred && self.transactions.contains_key(id) {
            seq![RecordKey::Transaction(id)]
        } else {
            Seq::empty()
        }
    }

    // ------------------------------------------------------------------
    // Queries

    /// What `get_transaction` answers.
    pub open spec fn transaction_for(self, caller: Address, id: u32) -> Result<
        Transaction,
        MultisigError,
    > {
        if !self.is_owner(caller) {
            Err(MultisigError::Unauthorized)
        } else if !self.transactions.contains_key(id) {
            Err(MultisigError::TransactionNotFound)
        } else {
            Ok(self.transactions[id])
        }
    }

    /// What `get_approvals` answers: to an owner, those who approved the
    /// transaction; nobody, where no list is recorded.
    pub open spec fn approvals_for(self, caller: Address, id: u32) -> Result<
        Seq<Address>,
        MultisigError,
    > {
        if !self.is_owner(caller) {
            Err(MultisigError::Unauthorized)
        } else {
            Ok(self.approvers(id))
        }
    }

    /// What `is_owner` answers.
    pub open spec fn owner_query(self, who: Address) -> Result<bool, MultisigError> {
        match self.config {
            Some(c) => Ok(c.owners.contains(who)),
            None => Err(MultisigError::Unauthorized),
        }
    }

    /// What `get_owner_count` answers.
    pub open spec fn owner_count(self) -> Result<u32, MultisigError> {
        match self.config {
            Some(c) => if c.owners.len() <= u32::MAX {
                Ok(c.owners.len() as u32)
            } else {
                Err(MultisigError::ArithmeticError)
            },
            None => Err(MultisigError::Unauthorized),
        }
    }

    /// What `get_threshold` answers.
    pub open spec fn threshold(self) -> Result<u32, MultisigError> {
        match self.config {
            Some(c) => Ok(c.required_approvals),
            None => Err(MultisigError::Unauthorized),
        }
    }

    /// What `get_transaction_count` answers.
    pub open spec fn transaction_count(self) -> Result<u32, MultisigError> {
        match self.config {
            Some(c) => Ok(c.transaction_count),
            None => Err(MultisigError::Unauthorized),
        }
    }

    // ------------------------------------------------------------------
    // Operations as values

    /// Why the operation `op` is refused in this state, if it is.
    pub open spec fn refusal(self, op: Operation) -> Option<MultisigError> {
        match op {
            Operation::Initialize { owners, required } => self.initialize_refusal(owners, required),
            Operation::UpdateThreshold { caller, required } => self.update_threshold_refusal(
                caller,
                required,
            ),
            Operation::Submit { caller, amount, .. } => self.submit_refusal(caller, amount),
            Operation::Approve { caller, id } => self.approve_refusal(caller, id),
            Operation::Execute { caller, id } => self.execute_refusal(caller, id),
            Operation::Settle { id, transferred } => self.settle_refusal(id, transferred),
        }
    }

    /// The state that the operation `op` leaves.
    pub open spec fn step(self, op: Operation) -> State {
        match op {
            Operation::Initialize { owners, required } => self.after_initialize(owners, required),
            Operation::UpdateThreshold { caller, required } => self.after_update_threshold(
                caller,
                required,
            ),
            Operation::Submit { caller, to, amount, token, data } => self.after_submit(
                caller,
                to,
                amount,
                token,
                data,
            ),
            Operation::Approve { caller, id } => self.after_approve(caller, id),
            Operation::Execute { caller, id } => self.after_execute(caller, id),
            Operation::Settle { id, transferred } => self.after_settle(id, transferred),
        }
    }

    /// The records that the operation `op` writes, in the order of the
    /// writes.
    pub open spec fn writes(self, op: Operation) -> Seq<RecordKey> {
        match op {
            Operation::Initialize { owners, required } => self.initialize_writes(owners, required),
            Operation::UpdateThreshold { caller, required } => self.update_threshold_writes(
                caller,
                required,
            ),
            Operation::Submit { caller, amount, .. } => self.submit_writes(caller, amount),
            Operation::Approve { caller, id } => self.approve_writes(caller, id),
            Operation::Execute { caller, id } => self.execute_writes(caller, id),
            Operation::Settle { id, transferred } => self.settle_writes(id, transferred),
        }
    }

    /// The state that the operations `ops` leave, carried out in order.
    pub open spec fn run(self, ops: Seq<Operation>) -> State
        decreases ops.len(),
    {
        if ops.len() == 0 {
            self
        } else {
            self.run(ops.drop_last()).step(ops.last())
        }
    }

    // ------------------------------------------------------------------
    // Invariant

    /// The transaction `id` and its approval list agree with each other and
    /// with the configuration.
    pub open spec fn record_consistent(self, id: u32) -> bool {
        let t = self.transactions[id];
        let a = self.approvals[id];
        &&& self.approvals.contains_key(id)
        &&& self.config matches Some(c) && 1 <= id <= c.transaction_count && (forall|i: int|
            0 <= i < a.len() ==> c.owners.contains(#[trigger] a[i]))
        &&& t.amount > 0
        &&& t.approvals == a.len()
        &&& a.len() >= 1
        &&& a[0] == t.submitter
        &&& a.no_duplicates()
    }

    /// What holds of a wallet at all times: the configuration is valid; each
    /// transaction has a positive amount and an id that was handed out; its
    /// count of approvals is the length of its approval list, which starts
    /// with the submitter and names owners only, none of them twice; and a
    /// transaction whose transfer is under way is marked as executed.
    pub open spec fn inv(self) -> bool {
        &&& self.config matches Some(c) ==> c.valid()
        &&& forall|id: u32| #[trigger]
            self.transactions.contains_key(id) ==> self.record_consistent(id)
        &&& forall|id: u32| #[trigger]
            self.approvals.contains_key(id) ==> self.transactions.contains_key(id)
        &&& forall|id: u32| #[trigger] self.in_flight.contains(id) ==> self.is_executed(id)
    }
}

} // verus!
