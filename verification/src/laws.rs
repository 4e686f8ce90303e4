//! What holds of the wallet whatever its state and whatever is asked of it.
//!
//! The laws speak of [`State`], of what an operation answers (`*_result`) and
//! of the state it leaves (`after_*`): the terms in which the operations of
//! [`MultisigContract`] state their own contracts.

use vstd::prelude::*;
use crate::address::Address;
use crate::contract::MultisigContract;
use crate::error::MultisigError;
use crate::model::{Operation, State};
use crate::store::RecordKey;
use crate::transaction::{Transaction, Transfer};

verus! {

// ----------------------------------------------------------------------
// Configuration
/// A wallet is initialized exactly once: with at least one owner, no owner
/// listed twice and a threshold between one and the number of owners the
/// first call succeeds, and whatever a second call brings is refused with
/// `AlreadyInitialized` and changes nothing.
pub proof fn law_initialize_succeeds_once(
    s: State,
    owners: Seq<Address>,
    required: u32,
    owners_again: Seq<Address>,
    required_again: u32,
)
    requires
        s.config is None,
        owners.len() >= 1,
        owners.no_duplicates(),
        1 <= required <= owners.len(),
    ensures
        s.initialize_result(owners, required) == Ok::<(), MultisigError>(()),
        s.after_initialize(owners, required).initialize_result(owners_again, required_again)
            == Err::<(), _>(MultisigError::AlreadyInitialized),
        s.after_initialize(owners, required).after_initialize(owners_again, required_again)
            == s.after_initialize(owners, required),
{
}

/// What `initialize` refuses, on a wallet that has no configuration yet: an
/// empty list of owners with `InvalidOwner`; a list that names an identity
/// twice with `DuplicateOwner`; and, where the owners are in order, a
/// threshold of zero or above their number with `InvalidThreshold`. A refused
/// call leaves the wallet without configuration.
pub proof fn law_initialize_refusals(s: State, owners: Seq<Address>, required: u32)
    requires
        s.config is None,
    ensures
        owners.len() == 0 ==> s.initialize_result(owners, required) == Err::<(), _>(
            MultisigError::InvalidOwner,
        ),
        !owners.no_duplicates() ==> s.initialize_result(owners, required) == Err::<(), _>(
            MultisigError::DuplicateOwner,
        ),
        owners.len() >= 1 && owners.no_duplicates() && (required == 0 || required > owners.len())
            ==> s.initialize_result(owners, required) == Err::<(), _>(
            MultisigError::InvalidThreshold,
        ),
        s.initialize_result(owners, required) is Err ==> s.after_initialize(owners, required) == s,
{
}

// ----------------------------------------------------------------------
// Authorization
/// A caller who is not an owner gets `Unauthorized` from every operation
/// that is reserved to owners, never another failure, and changes nothing.
pub proof fn law_strangers_are_unauthorized(s: State, op: Operation)
    requires
        op.gated_caller() matches Some(caller) && !s.is_owner(caller),
    ensures
        s.refusal(op) == Some(MultisigError::Unauthorized),
        s.step(op) == s,
{
}

/// A caller who is not an owner gets `Unauthorized` from both reads that are
/// reserved to owners.
pub proof fn law_strangers_cannot_read(s: State, caller: Address, id: u32)
    requires
        !s.is_owner(caller),
    ensures
        s.transaction_for(caller, id) == Err::<Transaction, _>(MultisigError::Unauthorized),
        s.approvals_for(caller, id) == Err::<Seq<Address>, _>(MultisigError::Unauthorized),
{
}

/// An operation that is refused changes nothing and writes nothing: the
/// first check that fails comes before any write. The one exception is the
/// report of a failed transfer, which takes the execution mark back.
pub proof fn law_refusal_changes_nothing(s: State, op: Operation)
    requires
        s.refusal(op) is Some,
        s.refusal(op) != Some(MultisigError::TokenTransferFailed),
    ensures
        s.step(op) == s,
        s.writes(op) == Seq::<RecordKey>::empty(),
{
}

// ----------------------------------------------------------------------
// Approval
/// An owner's approval counts once: right after a successful approval, the
/// same owner's approval of the same transaction is refused with
/// `AlreadyApproved`, and the count of approvals stays where the first call
/// left it.
pub proof fn law_second_approval_is_refused(s: State, caller: Address, id: u32)
    requires
        s.approve_result(caller, id) is Ok,
    ensures
        s.after_approve(caller, id).approve_result(caller, id) == Err::<(), _>(
            MultisigError::AlreadyApproved,
        ),
        s.after_approve(caller, id).after_approve(caller, id) == s.after_approve(caller, id),
        s.after_approve(caller, id).transactions[id].approvals == s.transactions[id].approvals + 1,
{
    let list = s.approvers(id).push(caller);
    assert(list[list.len() - 1] == caller);
    assert(s.after_approve(caller, id).approvers(id) == list);
}

/// Whoever has approved a transaction, the submitter included, is refused
/// with `AlreadyApproved` when approving it again while it waits.
pub proof fn law_approval_is_not_counted_twice(s: State, caller: Address, id: u32)
    requires
        s.is_owner(caller),
        s.transactions.contains_key(id),
        !s.transactions[id].executed,
        s.approvers(id).contains(caller),
    ensures
        s.approve_result(caller, id) == Err::<(), _>(MultisigError::AlreadyApproved),
        s.after_approve(caller, id) == s,
{
}

/// No approval is lost: whatever the operation, those who had approved a
/// transaction are still listed afterwards, in the same order, followed by
/// at most one more.
pub proof fn law_approvals_are_never_lost(s: State, op: Operation, id: u32)
    requires
        s.inv(),
        s.transactions.contains_key(id),
    ensures
        s.approvals[id].is_prefix_of(s.step(op).approvals[id]),
        s.step(op).approvals[id].len() <= s.approvals[id].len() + 1,
{
    assert(s.record_consistent(id));
    if op is Approve && op.target() == Some(id) && s.refusal(op) is None {
        let grown = s.step(op).approvals[id];
        assert(s.approvals[id] =~= grown.subrange(0, s.approvals[id].len() as int));
    }
}

/// A list without repetition whose members all occur in another list without
/// repetition is no longer than that list.
proof fn lemma_distinct_members_are_no_more(members: Seq<Address>, among: Seq<Address>)
    requires
        members.no_duplicates(),
        among.no_duplicates(),
        forall|i: int| 0 <= i < members.len() ==> among.contains(#[trigger] members[i]),
    ensures
        members.len() <= among.len(),
{
    members.unique_seq_to_set();
    among.unique_seq_to_set();
    assert(members.to_set().subset_of(among.to_set())) by {
        assert forall|x: Address| members.to_set().contains(x) implies among.to_set().contains(
            x,
        ) by {
            let i = choose|i: int| 0 <= i < members.len() && members[i] == x;
            assert(among.contains(members[i]));
        }
    }
    vstd::set_lib::lemma_len_subset(members.to_set(), among.to_set());
}

/// No transaction has more approvals than there are owners.
pub proof fn law_approvals_are_bounded_by_owners(s: State, id: u32)
    requires
        s.inv(),
        s.transactions.contains_key(id),
    ensures
        s.config is Some,
        s.transactions[id].approvals <= s.config->0.owners.len(),
{
    assert(s.record_consistent(id));
    lemma_distinct_members_are_no_more(s.approvals[id], s.config->0.owners);
}

/// With fewer than 2^32 owners the count of approvals cannot overflow:
/// `approve_transaction` never reports `ArithmeticError`.
pub proof fn law_approval_count_cannot_overflow(s: State, caller: Address, id: u32)
    requires
        s.inv(),
        s.config matches Some(c) && c.owners.len() <= u32::MAX,
    ensures
        s.approve_result(caller, id) != Err::<(), _>(MultisigError::ArithmeticError),
{
    if s.approve_refusal(caller, id) == Some(MultisigError::ArithmeticError) {
        assert(s.record_consistent(id));
        let grown = s.approvals[id].push(caller);
        assert forall|i: int| 0 <= i < grown.len() implies s.config->0.owners.contains(
            #[trigger] grown[i],
        ) by {
            if i < s.approvals[id].len() {
                assert(grown[i] == s.approvals[id][i]);
            }
        }
        lemma_distinct_members_are_no_more(grown, s.config->0.owners);
    }
}

// ----------------------------------------------------------------------
// Execution
/// No release without a quorum: where an execution is admitted, the caller
/// is an owner, and at least as many owners as the threshold asks for have
/// approved the transaction, each counted once.
pub proof fn law_execution_needs_quorum(s: State, caller: Address, id: u32)
    requires
        s.inv(),
        s.execute_result(caller, id) is Ok,
    ensures
        s.is_owner(caller),
        s.approvals[id].len() >= s.config->0.required_approvals >= 1,
        s.approvals[id].no_duplicates(),
        forall|i: int|
            0 <= i < s.approvals[id].len() ==> s.is_owner(#[trigger] s.approvals[id][i]),
        s.execute_result(caller, id)->Ok_0.amount > 0,
{
    assert(s.record_consistent(id));
}

/// While the transfer of a transaction is under way, an owner who approves
/// or executes that transaction is refused with `TransactionExecuted`.
pub proof fn law_no_second_execution_during_transfer(
    s: State,
    caller: Address,
    id: u32,
    owner: Address,
)
    requires
        s.execute_result(caller, id) is Ok,
        s.is_owner(owner),
    ensures
        s.after_execute(caller, id).in_flight.contains(id),
        s.after_execute(caller, id).execute_result(owner, id) == Err::<Transfer, _>(
            MultisigError::TransactionExecuted,
        ),
        s.after_execute(caller, id).approve_result(owner, id) == Err::<(), _>(
            MultisigError::TransactionExecuted,
        ),
{
}

/// A failed transfer burns nothing: once it is reported, the wallet is in
/// the state in which the execution began, so the same execution is
/// admitted again.
pub proof fn law_failed_transfer_can_be_retried(s: State, caller: Address, id: u32)
    requires
        s.inv(),
        s.execute_result(caller, id) is Ok,
    ensures
        s.after_execute(caller, id).settle_result(id, false) == Err::<(), _>(
            MultisigError::TokenTransferFailed,
        ),
        s.after_execute(caller, id).settle_writes(id, false) == seq![RecordKey::Transaction(id)],
        s.after_execute(caller, id).after_settle(id, false) == s,
        s.after_execute(caller, id).after_settle(id, false).execute_result(caller, id)
            == s.execute_result(caller, id),
{
    let settled = s.after_execute(caller, id).after_settle(id, false);
    assert(!s.is_executed(id));
    assert(settled.in_flight =~= s.in_flight);
    assert(settled.transactions =~= s.transactions);
    assert(settled =~= s);
}

/// A transfer that went through makes the execution final: the transaction
/// stays executed and no transfer of it is under way any more.
pub proof fn law_successful_transfer_is_final(s: State, caller: Address, id: u32)
    requires
        s.execute_result(caller, id) is Ok,
    ensures
        s.after_execute(caller, id).settle_result(id, true) == Ok::<(), MultisigError>(()),
        s.after_execute(caller, id).after_settle(id, true).is_executed(id),
        !s.after_execute(caller, id).after_settle(id, true).in_flight.contains(id),
{
}

/// An executed transaction takes no further approval and no further
/// execution: an owner who asks for either is refused with
/// `TransactionExecuted`.
pub proof fn law_executed_is_refused(s: State, id: u32, owner: Address)
    requires
        s.is_executed(id),
        s.is_owner(owner),
    ensures
        s.approve_result(owner, id) == Err::<(), _>(MultisigError::TransactionExecuted),
        s.execute_result(owner, id) == Err::<Transfer, _>(MultisigError::TransactionExecuted),
        s.after_approve(owner, id) == s,
        s.after_execute(owner, id) == s,
{
}

/// Execution is final: once a transaction is executed and its transfer is
/// settled, no operation changes its record or its approval list, and none
/// puts a transfer of it under way.
pub proof fn law_executed_is_final(s: State, id: u32, op: Operation)
    requires
        s.inv(),
        s.is_executed(id),
        !s.in_flight.contains(id),
    ensures
        s.step(op).transactions.contains_key(id),
        s.step(op).transactions[id] == s.transactions[id],
        s.step(op).approvals[id] == s.approvals[id],
        !s.step(op).in_flight.contains(id),
{
    assert(s.record_consistent(id));
}

/// No second release: once a transaction is executed and its transfer is
/// settled, no sequence of operations changes its record, and none puts a
/// transfer of it under way again.
pub proof fn law_executed_stays_executed(s: State, id: u32, ops: Seq<Operation>)
    requires
        s.inv(),
        s.is_executed(id),
        !s.in_flight.contains(id),
    ensures
        s.run(ops).inv(),
        s.run(ops).transactions.contains_key(id),
        s.run(ops).transactions[id] == s.transactions[id],
        s.run(ops).approvals[id] == s.approvals[id],
        !s.run(ops).in_flight.contains(id),
    decreases ops.len(),
{
    if ops.len() > 0 {
        let before = s.run(ops.drop_last());
        law_executed_stays_executed(s, id, ops.drop_last());
        law_invariant_is_kept(before, ops.last());
        law_executed_is_final(before, id, ops.last());
    }
}

// ----------------------------------------------------------------------
// Records
/// Every change is written: a record that an operation leaves different from
/// how it found it is named among the operation's writes. So are the records
/// that it creates.
pub proof fn law_every_change_is_written(s: State, op: Operation, id: u32)
    ensures
        s.step(op).config != s.config ==> s.writes(op).contains(RecordKey::Config),
        s.step(op).records().transaction(id) != s.records().transaction(id) ==> s.writes(
            op,
        ).contains(RecordKey::Transaction(id)),
        s.step(op).approvals.contains_key(id) && !(s.approvals.contains_key(id) && s.step(
            op,
        ).approvals[id] == s.approvals[id]) ==> s.writes(op).contains(RecordKey::Approvals(id)),
        s.step(op).approvals.contains_key(id) || !s.approvals.contains_key(id),
{
    let w = s.writes(op);
    if w.len() >= 1 {
        assert(w.contains(w[0]));
    }
    if w.len() >= 2 {
        assert(w.contains(w[1]));
    }
    if w.len() >= 3 {
        assert(w.contains(w[2]));
    }
}

/// What was proposed stays as proposed: no operation changes a
/// transaction's recipient, amount, asset, payload or submitter. The
/// execution mark changes only when an execution of that transaction begins
/// or when its failed transfer is reported.
pub proof fn law_proposal_is_immutable(s: State, op: Operation, id: u32)
    requires
        s.inv(),
        s.transactions.contains_key(id),
    ensures
        s.step(op).transactions.contains_key(id),
        s.step(op).transactions[id].to == s.transactions[id].to,
        s.step(op).transactions[id].amount == s.transactions[id].amount,
        s.step(op).transactions[id].token == s.transactions[id].token,
        s.step(op).transactions[id].data == s.transactions[id].data,
        s.step(op).transactions[id].submitter == s.transactions[id].submitter,
        s.step(op).transactions[id].executed != s.transactions[id].executed ==> op.target()
            == Some(id) && (if s.transactions[id].executed {
            op is Settle
        } else {
            op is Execute
        }),
{
    assert(s.record_consistent(id));
}

/// The counters only grow: no operation lowers the number of submissions,
/// and none lowers a transaction's count of approvals. The owners stay who
/// they are.
pub proof fn law_counters_never_decrease(s: State, op: Operation, id: u32)
    requires
        s.inv(),
        s.transactions.contains_key(id),
    ensures
        s.config is Some && s.step(op).config is Some,
        s.step(op).config->0.transaction_count >= s.config->0.transaction_count,
        s.step(op).config->0.owners == s.config->0.owners,
        s.step(op).transactions.contains_key(id),
        s.step(op).transactions[id].approvals >= s.transactions[id].approvals,
{
    assert(s.record_consistent(id));
}

// ----------------------------------------------------------------------
// Invariant
/// Every operation keeps the invariant.
pub proof fn law_invariant_is_kept(s: State, op: Operation)
    requires
        s.inv(),
    ensures
        s.step(op).inv(),
{
    let next = s.step(op);
    if s.refusal(op) is None || op is Settle {
        if op is Submit {
            let caller = op->Submit_caller;
            assert(seq![caller][0] == caller);
        }
        if op is Approve {
            assert(s.record_consistent(op->Approve_id));
        }
        assert forall|k: u32| #[trigger] next.transactions.contains_key(k) implies
            next.record_consistent(k) by {
            if s.transactions.contains_key(k) {
                assert(s.record_consistent(k));
            }
        }
    }
}

/// The invariant holds of every wallet: of a new one, and then after any
/// operations, in any order and with any arguments.
pub proof fn law_invariant_always_holds(ops: Seq<Operation>)
    ensures
        State::fresh().run(ops).inv(),
    decreases ops.len(),
{
    if ops.len() > 0 {
        law_invariant_always_holds(ops.drop_last());
        law_invariant_is_kept(State::fresh().run(ops.drop_last()), ops.last());
    }
}

// ----------------------------------------------------------------------
// Reads
/// Reading is pure: whatever `get_transaction` may answer for a wallet, a
/// caller and an id, it may answer nothing else for them.
pub proof fn law_get_transaction_repeats(
    w: MultisigContract,
    caller: Address,
    id: u32,
    first: Result<Transaction, MultisigError>,
    second: Result<Transaction, MultisigError>,
)
    requires
        call_ensures(MultisigContract::get_transaction, (&w, caller, id), first),
        call_ensures(MultisigContract::get_transaction, (&w, caller, id), second),
    ensures
        first == second,
{
}

/// Reading is pure: whatever `get_approvals` may answer for a wallet, a
/// caller and an id, any other answer for them names the same approvers in
/// the same order, or is the same refusal.
pub proof fn law_get_approvals_repeats(
    w: MultisigContract,
    caller: Address,
    id: u32,
    first: Result<Vec<Address>, MultisigError>,
    second: Result<Vec<Address>, MultisigError>,
)
    requires
        call_ensures(MultisigContract::get_approvals, (&w, caller, id), first),
        call_ensures(MultisigContract::get_approvals, (&w, caller, id), second),
    ensures
        first is Ok <==> second is Ok,
        first is Ok ==> first->Ok_0@ == second->Ok_0@,
        first is Err ==> first->Err_0 == second->Err_0,
{
}

} // verus!
