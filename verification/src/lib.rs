//! A threshold-authorization engine for the custody of fungible value.
//!
//! A fixed set of owners proposes transfers, approves them, and releases a
//! transfer once a quorum of distinct owners has approved it. The crate holds
//! the state machine only: who a caller is, where records are kept for good
//! and how value moves are the embedding program's business.
//!
//! - [`contract`]: the wallet and its operations.
//! - [`model`]: the wallet as a mathematical state machine, in whose terms
//!   the operations state what they answer and what they change.
//! - [`laws`]: what is proved of that machine.
//! - [`store`]: the records in memory, with the journal of their writes.
//! - [`address`], [`config`], [`transaction`], [`error`]: the values.
//!
//! An embedding program authenticates the caller, puts the records that a
//! call needs into a [`Store`], makes a [`MultisigContract`] of it, calls the
//! operation, and writes to its durable storage the records that
//! [`MultisigContract::take_writes`] names, in that order. To execute a
//! transaction it performs the [`Transfer`] that
//! [`MultisigContract::execute_transaction`] hands out, after the writes, and
//! reports the outcome to [`MultisigContract::settle_transfer`].

pub mod address;
pub mod config;
pub mod contract;
pub mod error;
pub mod laws;
pub mod model;
pub mod store;
pub mod transaction;

pub use address::{Address, KEY_LEN};
pub use config::MultisigConfig;
pub use contract::MultisigContract;
pub use error::MultisigError;
pub use model::{Operation, State};
pub use store::{RecordKey, Store};
pub use transaction::{Transaction, Transfer};
