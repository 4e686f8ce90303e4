//! The failures that an operation of the wallet can report.

use vstd::prelude::*;

verus! {

/// Why an operation was refused. Every failure is reported to the caller and
/// leaves the wallet usable.
#[derive(Copy, Clone, Debug, Eq, PartialEq, Structural)]
pub enum MultisigError {
    /// The caller is not an owner, or the wallet has no configuration yet.
    Unauthorized,
    /// The threshold is zero or exceeds the number of owners.
    InvalidThreshold,
    /// No transaction is recorded under the given id.
    TransactionNotFound,
    /// The transaction has been executed already.
    TransactionExecuted,
    /// The caller has approved the transaction before.
    AlreadyApproved,
    /// Fewer owners have approved than the threshold asks for.
    InsufficientApprovals,
    /// The list of owners is empty.
    InvalidOwner,
    /// A counter would exceed the range of its type.
    ArithmeticError,
    /// An identity occurs twice in the list of owners.
    DuplicateOwner,
    /// The wallet has been configured already.
    AlreadyInitialized,
    /// The amount is zero or negative.
    InvalidAmount,
    /// An address was rejected. No operation of this crate reports it; the
    /// code is kept for embeddings that do.
    InvalidAddress,
    /// The transfer of value failed; the execution was rolled back.
    TokenTransferFailed,
}

impl MultisigError {
    /// The stable numeric code of the failure, counted from 1.
    pub open spec fn code_of(self) -> u32 {
        match self {
            MultisigError::Unauthorized => 1,
            MultisigError::InvalidThreshold => 2,
            MultisigError::TransactionNotFound => 3,
            MultisigError::TransactionExecuted => 4,
            MultisigError::AlreadyApproved => 5,
            MultisigError::InsufficientApprovals => 6,
            MultisigError::InvalidOwner => 7,
            MultisigError::ArithmeticError => 8,
            MultisigError::DuplicateOwner => 9,
            MultisigError::AlreadyInitialized => 10,
            MultisigError::InvalidAmount => 11,
            MultisigError::InvalidAddress => 12,
            MultisigError::TokenTransferFailed => 13,
        }
    }

    /// The numeric code under which the failure is reported across a
    /// contract boundary.
    pub fn code(self) -> (r: u32)
        ensures
            r == self.code_of(),
            1 <= r <= 13,
    {
        match self {
            MultisigError::Unauthorized => 1,
            MultisigError::InvalidThreshold => 2,
            MultisigError::TransactionNotFound => 3,
            MultisigError::TransactionExecuted => 4,
            MultisigError::AlreadyApproved => 5,
            MultisigError::InsufficientApprovals => 6,
            MultisigError::InvalidOwner => 7,
            MultisigError::ArithmeticError => 8,
            MultisigError::DuplicateOwner => 9,
            MultisigError::AlreadyInitialized => 10,
            MultisigError::InvalidAmount => 11,
            MultisigError::InvalidAddress => 12,
            MultisigError::TokenTransferFailed => 13,
        }
    }

    /// The failure that a numeric code stands for: `Some` exactly for the
    /// codes 1 to 13.
    pub fn from_code(code: u32) -> (r: Option<MultisigError>)
        ensures
            r is Some <==> 1 <= code <= 13,
            r matches Some(e) ==> e.code_of() == code,
    {
        match code {
            1 => Some(MultisigError::Unauthorized),
            2 => Some(MultisigError::InvalidThreshold),
            3 => Some(MultisigError::TransactionNotFound),
            4 => Some(MultisigError::TransactionExecuted),
            5 => Some(MultisigError::AlreadyApproved),
            6 => Some(MultisigError::InsufficientApprovals),
            7 => Some(MultisigError::InvalidOwner),
            8 => Some(MultisigError::ArithmeticError),
            9 => Some(MultisigError::DuplicateOwner),
            10 => Some(MultisigError::AlreadyInitialized),
            11 => Some(MultisigError::InvalidAmount),
            12 => Some(MultisigError::InvalidAddress),
            13 => Some(MultisigError::TokenTransferFailed),
            _ => None,
        }
    }
}

/// No two failures share a code.
pub proof fn law_error_codes_are_distinct(a: MultisigError, b: MultisigError)
    requires
        a.code_of() == b.code_of(),
    ensures
        a == b,
{
}

} // verus!
