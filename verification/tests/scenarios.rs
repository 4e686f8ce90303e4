use multisign::{Address, MultisigConfig, MultisigContract, MultisigError, Store, Transaction, KEY_LEN};

/// The account whose key is made of the given character.
fn account(n: u8) -> Address {
    let mut key = [n; KEY_LEN];
    key[0] = b'G';
    Address::new(key)
}

/// The contract whose key is made of the given character.
fn contract(n: u8) -> Address {
    let mut key = [n; KEY_LEN];
    key[0] = b'C';
    Address::new(key)
}

fn who(n: u8) -> Address {
    account(n)
}

fn token() -> Address {
    contract(9)
}

/// A wallet owned by 1, 2 and 3 with the given threshold.
fn wallet(threshold: u32) -> MultisigContract {
    let mut w = MultisigContract::new();
    assert_eq!(w.initialize(vec![who(1), who(2), who(3)], threshold), Ok(()));
    w
}

#[test]
fn quorum_of_two_executes_when_the_transfer_succeeds() {
    let (a, b) = (who(1), who(2));
    let mut w = wallet(2);

    let id = w.submit_transaction(a, who(50), 700, token(), [7; 32]).unwrap();
    assert_eq!(id, 1);
    assert_eq!(w.get_transaction(a, id).unwrap().approvals, 1);

    assert_eq!(w.approve_transaction(b, id), Ok(()));
    assert_eq!(w.get_transaction(a, id).unwrap().approvals, 2);

    let transfer = w.execute_transaction(a, id).unwrap();
    assert_eq!(transfer.transaction_id, 1);
    assert_eq!(transfer.token, token());
    assert_eq!(transfer.to, who(50));
    assert_eq!(transfer.amount, 700);
    // the mark is set before the value moves
    assert!(w.get_transaction(a, id).unwrap().executed);

    assert_eq!(w.settle_transfer(id, true), Ok(()));
    assert!(w.get_transaction(a, id).unwrap().executed);
}

#[test]
fn failed_transfer_reverts_and_can_be_retried() {
    let (a, b, c) = (who(1), who(2), who(3));
    let mut w = wallet(2);
    let id = w.submit_transaction(a, who(50), 700, token(), [0; 32]).unwrap();
    assert_eq!(w.approve_transaction(b, id), Ok(()));

    assert!(w.execute_transaction(a, id).is_ok());
    assert_eq!(w.settle_transfer(id, false), Err(MultisigError::TokenTransferFailed));
    let after = w.get_transaction(a, id).unwrap();
    assert!(!after.executed);
    assert_eq!(after.approvals, 2);
    assert_eq!(w.get_approvals(a, id).unwrap(), vec![a, b]);

    // the approvals stand; a third owner may still add one, and the execution is admitted again
    assert_eq!(w.approve_transaction(c, id), Ok(()));
    assert!(w.execute_transaction(c, id).is_ok());
    assert_eq!(w.settle_transfer(id, true), Ok(()));
    assert!(w.get_transaction(a, id).unwrap().executed);
}

#[test]
fn executed_transaction_is_terminal() {
    let (a, b) = (who(1), who(2));
    let mut w = wallet(1);
    let id = w.submit_transaction(a, who(50), 5, token(), [0; 32]).unwrap();
    assert!(w.execute_transaction(a, id).is_ok());
    assert_eq!(w.settle_transfer(id, true), Ok(()));

    assert_eq!(w.approve_transaction(b, id), Err(MultisigError::TransactionExecuted));
    assert_eq!(w.execute_transaction(b, id), Err(MultisigError::TransactionExecuted));
    // no transfer is under way, so there is nothing to settle or to take back
    assert_eq!(w.settle_transfer(id, false), Err(MultisigError::TransactionNotFound));
    let t = w.get_transaction(a, id).unwrap();
    assert!(t.executed);
    assert_eq!(t.approvals, 1);
}

#[test]
fn transfer_under_way_blocks_approval_and_execution() {
    let (a, b) = (who(1), who(2));
    let mut w = wallet(1);
    let id = w.submit_transaction(a, who(50), 5, token(), [0; 32]).unwrap();
    let other = w.submit_transaction(b, who(51), 6, token(), [0; 32]).unwrap();
    assert!(w.execute_transaction(a, id).is_ok());

    assert_eq!(w.execute_transaction(b, id), Err(MultisigError::TransactionExecuted));
    assert_eq!(w.approve_transaction(b, id), Err(MultisigError::TransactionExecuted));
    // other transactions go on as usual
    assert_eq!(w.approve_transaction(a, other), Ok(()));
    assert_eq!(w.execute_transaction(a, other).unwrap().amount, 6);
    assert_eq!(w.settle_transfer(other, true), Ok(()));
    assert_eq!(w.settle_transfer(id, false), Err(MultisigError::TokenTransferFailed));
    assert!(!w.get_transaction(a, id).unwrap().executed);
    assert!(w.get_transaction(a, other).unwrap().executed);
}

#[test]
fn settle_without_execution_changes_nothing() {
    let a = who(1);
    let mut w = wallet(1);
    let id = w.submit_transaction(a, who(50), 5, token(), [0; 32]).unwrap();
    let before = w.get_transaction(a, id).unwrap();
    assert_eq!(w.settle_transfer(id, true), Err(MultisigError::TransactionNotFound));
    assert_eq!(w.settle_transfer(id, false), Err(MultisigError::TransactionNotFound));
    assert_eq!(w.settle_transfer(77, false), Err(MultisigError::TransactionNotFound));
    assert_eq!(w.get_transaction(a, id).unwrap(), before);
}

#[test]
fn submission_records_the_proposal() {
    let a = who(1);
    let mut w = wallet(2);
    assert_eq!(w.get_transaction_count(), Ok(0));
    let id = w.submit_transaction(a, who(50), 1, token(), [3; 32]).unwrap();
    assert_eq!(id, 1);
    assert_eq!(w.get_transaction_count(), Ok(1));
    assert_eq!(
        w.get_transaction(a, id).unwrap(),
        Transaction {
            to: who(50),
            amount: 1,
            token: token(),
            data: [3; 32],
            executed: false,
            approvals: 1,
            submitter: a,
        }
    );
    assert_eq!(w.get_approvals(a, id).unwrap(), vec![a]);
    // ids are handed out in order
    assert_eq!(w.submit_transaction(who(2), who(50), i128::MAX, token(), [0; 32]), Ok(2));
    assert_eq!(w.get_transaction_count(), Ok(2));
    assert_eq!(w.get_approvals(a, 2).unwrap(), vec![who(2)]);
}

#[test]
fn invalid_amount_leaves_the_count_alone() {
    let a = who(1);
    let mut w = wallet(2);
    assert_eq!(w.submit_transaction(a, who(50), 0, token(), [0; 32]), Err(MultisigError::InvalidAmount));
    assert_eq!(w.submit_transaction(a, who(50), -1, token(), [0; 32]), Err(MultisigError::InvalidAmount));
    assert_eq!(w.submit_transaction(a, who(50), i128::MIN, token(), [0; 32]), Err(MultisigError::InvalidAmount));
    assert_eq!(w.get_transaction_count(), Ok(0));
    assert_eq!(w.get_transaction(a, 1), Err(MultisigError::TransactionNotFound));
    assert_eq!(w.get_approvals(a, 1), Ok(vec![]));
}

#[test]
fn second_approval_leaves_the_count_alone() {
    let (a, b) = (who(1), who(2));
    let mut w = wallet(3);
    let id = w.submit_transaction(a, who(50), 5, token(), [0; 32]).unwrap();
    assert_eq!(w.approve_transaction(b, id), Ok(()));
    assert_eq!(w.approve_transaction(b, id), Err(MultisigError::AlreadyApproved));
    assert_eq!(w.approve_transaction(a, id), Err(MultisigError::AlreadyApproved));
    assert_eq!(w.get_transaction(a, id).unwrap().approvals, 2);
    assert_eq!(w.get_approvals(a, id).unwrap(), vec![a, b]);
}

#[test]
fn unknown_id_is_not_found() {
    let a = who(1);
    let mut w = wallet(1);
    assert_eq!(w.approve_transaction(a, 1), Err(MultisigError::TransactionNotFound));
    assert_eq!(w.execute_transaction(a, 1), Err(MultisigError::TransactionNotFound));
    assert_eq!(w.get_transaction(a, 0), Err(MultisigError::TransactionNotFound));
    assert_eq!(w.get_approvals(a, 0), Ok(vec![]));
    let _ = w.submit_transaction(a, who(50), 5, token(), [0; 32]).unwrap();
    assert_eq!(w.approve_transaction(a, 2), Err(MultisigError::TransactionNotFound));
    assert_eq!(w.execute_transaction(a, 0), Err(MultisigError::TransactionNotFound));
}

#[test]
fn insufficient_approvals_leave_the_transaction_waiting() {
    let (a, b) = (who(1), who(2));
    let mut w = wallet(3);
    let id = w.submit_transaction(a, who(50), 5, token(), [0; 32]).unwrap();
    assert_eq!(w.execute_transaction(a, id), Err(MultisigError::InsufficientApprovals));
    assert_eq!(w.approve_transaction(b, id), Ok(()));
    assert_eq!(w.execute_transaction(b, id), Err(MultisigError::InsufficientApprovals));
    assert!(!w.get_transaction(a, id).unwrap().executed);
    assert_eq!(w.settle_transfer(id, true), Err(MultisigError::TransactionNotFound));
    assert_eq!(w.approve_transaction(who(3), id), Ok(()));
    assert!(w.execute_transaction(b, id).is_ok());
}

#[test]
fn strangers_are_unauthorized_everywhere() {
    let a = who(1);
    let stranger = who(9);
    // an owner's key but for its first character: another identity
    let lookalike = contract(1);
    let mut w = wallet(1);
    let id = w.submit_transaction(a, who(50), 5, token(), [0; 32]).unwrap();

    for x in [stranger, lookalike] {
        assert_eq!(w.verify_owner(&x), Err(MultisigError::Unauthorized));
        // an invalid amount, an unknown id: still Unauthorized, never another failure
        assert_eq!(w.submit_transaction(x, who(50), 0, token(), [0; 32]), Err(MultisigError::Unauthorized));
        assert_eq!(w.submit_transaction(x, who(50), 5, token(), [0; 32]), Err(MultisigError::Unauthorized));
        assert_eq!(w.approve_transaction(x, id), Err(MultisigError::Unauthorized));
        assert_eq!(w.approve_transaction(x, 99), Err(MultisigError::Unauthorized));
        assert_eq!(w.execute_transaction(x, id), Err(MultisigError::Unauthorized));
        assert_eq!(w.execute_transaction(x, 99), Err(MultisigError::Unauthorized));
        assert_eq!(w.get_transaction(x, id), Err(MultisigError::Unauthorized));
        assert_eq!(w.get_approvals(x, id), Err(MultisigError::Unauthorized));
        assert_eq!(w.update_threshold(x, 0), Err(MultisigError::Unauthorized));
        assert_eq!(w.update_threshold(x, 2), Err(MultisigError::Unauthorized));
        assert_eq!(w.is_owner(x), Ok(false));
    }
    assert_eq!(w.verify_owner(&a), Ok(()));
    assert_eq!(w.get_transaction_count(), Ok(1));
    assert_eq!(w.get_threshold(), Ok(1));
    assert_eq!(w.get_transaction(a, id).unwrap().approvals, 1);
}

#[test]
fn nothing_is_authorized_before_initialization() {
    let a = who(1);
    let mut w = MultisigContract::new();
    assert!(matches!(w.get_config(), Err(MultisigError::Unauthorized)));
    assert_eq!(w.verify_owner(&a), Err(MultisigError::Unauthorized));
    assert_eq!(w.is_owner(a), Err(MultisigError::Unauthorized));
    assert_eq!(w.get_owner_count(), Err(MultisigError::Unauthorized));
    assert_eq!(w.get_threshold(), Err(MultisigError::Unauthorized));
    assert_eq!(w.get_transaction_count(), Err(MultisigError::Unauthorized));
    assert_eq!(w.submit_transaction(a, who(50), 5, token(), [0; 32]), Err(MultisigError::Unauthorized));
    assert_eq!(w.approve_transaction(a, 1), Err(MultisigError::Unauthorized));
    assert_eq!(w.execute_transaction(a, 1), Err(MultisigError::Unauthorized));
    assert_eq!(w.get_transaction(a, 1), Err(MultisigError::Unauthorized));
    assert_eq!(w.get_approvals(a, 1), Err(MultisigError::Unauthorized));
    assert_eq!(w.update_threshold(a, 1), Err(MultisigError::Unauthorized));
}

#[test]
fn initialize_checks_in_order() {
    let (a, b) = (who(1), who(2));
    // empty comes before the threshold
    let mut w = MultisigContract::new();
    assert_eq!(w.initialize(vec![], 0), Err(MultisigError::InvalidOwner));
    // a repeated owner comes before the threshold
    assert_eq!(w.initialize(vec![a, b, a], 0), Err(MultisigError::DuplicateOwner));
    assert_eq!(w.initialize(vec![a, a], 3), Err(MultisigError::DuplicateOwner));
    assert_eq!(w.initialize(vec![a, b], 3), Err(MultisigError::InvalidThreshold));
    assert_eq!(w.initialize(vec![a, b], u32::MAX), Err(MultisigError::InvalidThreshold));
    // a refused call leaves the wallet uninitialized
    assert!(matches!(w.get_config(), Err(MultisigError::Unauthorized)));
    // the threshold may equal the number of owners
    assert_eq!(w.initialize(vec![a, b], 2), Ok(()));
    let config = w.get_config().unwrap();
    assert_eq!(config.owners, vec![a, b]);
    assert_eq!(config.required_approvals, 2);
    assert_eq!(config.transaction_count, 0);
    // once initialized, everything else is beside the point
    assert_eq!(w.initialize(vec![], 0), Err(MultisigError::AlreadyInitialized));
    assert_eq!(w.initialize(vec![a, a], 1), Err(MultisigError::AlreadyInitialized));
    assert_eq!(w.get_owner_count(), Ok(2));
}

#[test]
fn owners_differing_in_one_character_are_distinct() {
    let mut key = [b'A'; KEY_LEN];
    let a = Address::new(key);
    key[KEY_LEN - 1] = b'B';
    let b = Address::new(key);
    key[0] = b'C';
    let c = Address::new(key);
    assert_ne!(a, b);
    assert_ne!(b, c);
    assert_eq!(c, Address { key });
    let mut w = MultisigContract::new();
    assert_eq!(w.initialize(vec![a, b, c], 3), Ok(()));
    assert_eq!(w.get_owner_count(), Ok(3));
    assert_eq!(w.is_owner(c), Ok(true));
    key[30] = b'Z';
    assert_eq!(w.is_owner(Address::new(key)), Ok(false));
}

#[test]
fn threshold_update_is_validated() {
    let a = who(1);
    let mut w = wallet(2);
    assert_eq!(w.update_threshold(a, 0), Err(MultisigError::InvalidThreshold));
    assert_eq!(w.update_threshold(a, 4), Err(MultisigError::InvalidThreshold));
    assert_eq!(w.get_threshold(), Ok(2));
    assert_eq!(w.update_threshold(a, 1), Ok(()));
    assert_eq!(w.get_threshold(), Ok(1));
    assert_eq!(w.get_owner_count(), Ok(3));
    assert_eq!(w.get_transaction_count(), Ok(0));
    // the new threshold governs execution
    let id = w.submit_transaction(a, who(50), 5, token(), [0; 32]).unwrap();
    assert!(w.execute_transaction(a, id).is_ok());
}

#[test]
fn reads_repeat_and_change_nothing() {
    let (a, b) = (who(1), who(2));
    let mut w = wallet(2);
    let id = w.submit_transaction(a, who(50), 5, token(), [0; 32]).unwrap();
    assert_eq!(w.approve_transaction(b, id), Ok(()));
    let t1 = w.get_transaction(a, id);
    let l1 = w.get_approvals(b, id);
    let t2 = w.get_transaction(a, id);
    let l2 = w.get_approvals(b, id);
    assert_eq!(t1, t2);
    assert_eq!(l1, l2);
    assert_eq!(l1, Ok(vec![a, b]));
    assert_eq!(w.get_transaction_count(), Ok(1));
    assert!(w.execute_transaction(a, id).is_ok());
}

#[test]
fn counters_at_their_limit_report_arithmetic_error() {
    let (a, b) = (who(1), who(2));
    let mut store = Store::new();
    store.set_config(MultisigConfig { owners: vec![a, b], required_approvals: 1, transaction_count: u32::MAX });
    store.set_transaction(
        8,
        Transaction {
            to: who(50),
            amount: 5,
            token: token(),
            data: [0; 32],
            executed: false,
            approvals: u32::MAX,
            submitter: a,
        },
    );
    store.set_approvals(8, vec![a]);
    let mut w = MultisigContract::from_store(store);

    assert_eq!(w.submit_transaction(a, who(50), 5, token(), [0; 32]), Err(MultisigError::ArithmeticError));
    assert_eq!(w.get_transaction_count(), Ok(u32::MAX));
    assert_eq!(w.approve_transaction(b, 8), Err(MultisigError::ArithmeticError));
    assert_eq!(w.get_transaction(a, 8).unwrap().approvals, u32::MAX);
    assert_eq!(w.get_approvals(a, 8).unwrap(), vec![a]);
    // the checks that come first still come first
    assert_eq!(w.submit_transaction(a, who(50), 0, token(), [0; 32]), Err(MultisigError::InvalidAmount));
    assert_eq!(w.approve_transaction(a, 8), Err(MultisigError::AlreadyApproved));
}

#[test]
fn approval_list_defaults_to_empty() {
    let (a, b) = (who(1), who(2));
    let mut store = Store::new();
    store.set_config(MultisigConfig { owners: vec![a, b], required_approvals: 1, transaction_count: 3 });
    store.set_transaction(
        3,
        Transaction { to: who(50), amount: 5, token: token(), data: [0; 32], executed: false, approvals: 0, submitter: a },
    );
    let mut w = MultisigContract::from_store(store);
    // a list that is not there reads as empty; an approval starts one
    assert_eq!(w.get_approvals(a, 3), Ok(vec![]));
    assert_eq!(w.approve_transaction(b, 3), Ok(()));
    assert_eq!(w.get_approvals(a, 3), Ok(vec![b]));
    assert_eq!(w.get_transaction(a, 3).unwrap().approvals, 1);
}

#[test]
fn next_id_is_one_past_the_count() {
    let a = who(1);
    let mut w = MultisigContract::new();
    assert_eq!(w.next_id(), Err(MultisigError::Unauthorized));
    assert_eq!(w.initialize(vec![a], 1), Ok(()));
    assert_eq!(w.next_id(), Ok(1));
    assert_eq!(w.submit_transaction(a, who(50), 5, token(), [0; 32]), Ok(1));
    assert_eq!(w.next_id(), Ok(2));
    assert_eq!(w.next_id(), Ok(2));

    let mut store = Store::new();
    store.set_config(MultisigConfig { owners: vec![a], required_approvals: 1, transaction_count: u32::MAX - 1 });
    let mut w = MultisigContract::from_store(store);
    assert_eq!(w.next_id(), Ok(u32::MAX));
    assert_eq!(w.submit_transaction(a, who(50), 5, token(), [0; 32]), Ok(u32::MAX));
    assert_eq!(w.next_id(), Err(MultisigError::ArithmeticError));
    assert_eq!(w.get_transaction_count(), Ok(u32::MAX));
}
