//! The validation errors of the settlement core.
//!
//! Every error is local and synchronous: detection aborts the whole operation
//! with zero mutation, and the kind is surfaced verbatim to the caller.

use vstd::prelude::*;

verus! {

/// Why an operation was rejected. Each variant names the first precondition
/// that failed; the contracts of the operations say exactly which inputs
/// produce which variant.
#[derive(Clone, Copy, Debug, PartialEq, Eq, Structural)]
pub enum ProtocolError {
    /// An escrow was created with a price of zero.
    InvalidPrice,
    /// The payment submitted for an escrow does not equal its price.
    InvalidPaymentAmount,
    /// The caller is not the buyer recorded on the escrow.
    InvalidBuyer,
    /// A purchase was attempted on an escrow that is no longer Initialized.
    InvalidEscrowStatus,
    /// A cancellation was attempted on a Completed escrow.
    EscrowAlreadyCompleted,
    /// A cancellation was attempted on an already Cancelled escrow.
    EscrowAlreadyCancelled,
    /// A distribution was requested for an amount of zero.
    InsufficientFunds,
    /// A supplied collaborator account does not match the configured list.
    InvalidCollaborator,
    /// The token transfer accounts supplied with the call are missing or do
    /// not belong to the declared payment medium.
    InvalidVault,
    /// A revenue-split policy violates its declared bounds: a platform fee
    /// over 1000 basis points, shares that leave the creator no remainder,
    /// or a duplicate collaborator identity.
    InvalidSplitConfig,
}

impl ProtocolError {
    /// A short stable name for the error, for logs and messages.
    pub fn as_str(&self) -> (r: &'static str)
        ensures
            r@ =~= self.name_spec(),
    {
        match self {
            ProtocolError::InvalidPrice => "InvalidPrice",
            ProtocolError::InvalidPaymentAmount => "InvalidPaymentAmount",
            ProtocolError::InvalidBuyer => "InvalidBuyer",
            ProtocolError::InvalidEscrowStatus => "InvalidEscrowStatus",
            ProtocolError::EscrowAlreadyCompleted => "EscrowAlreadyCompleted",
            ProtocolError::EscrowAlreadyCancelled => "EscrowAlreadyCancelled",
            ProtocolError::InsufficientFunds => "InsufficientFunds",
            ProtocolError::InvalidCollaborator => "InvalidCollaborator",
            ProtocolError::InvalidVault => "InvalidVault",
            ProtocolError::InvalidSplitConfig => "InvalidSplitConfig",
        }
    }

    /// The name that `as_str` returns for each variant.
    pub open spec fn name_spec(&self) -> Seq<char> {
        match self {
            ProtocolError::InvalidPrice => "InvalidPrice"@,
            ProtocolError::InvalidPaymentAmount => "InvalidPaymentAmount"@,
            ProtocolError::InvalidBuyer => "InvalidBuyer"@,
            ProtocolError::InvalidEscrowStatus => "InvalidEscrowStatus"@,
            ProtocolError::EscrowAlreadyCompleted => "EscrowAlreadyCompleted"@,
            ProtocolError::EscrowAlreadyCancelled => "EscrowAlreadyCancelled"@,
            ProtocolError::InsufficientFunds => "InsufficientFunds"@,
            ProtocolError::InvalidCollaborator => "InvalidCollaborator"@,
            ProtocolError::InvalidVault => "InvalidVault"@,
            ProtocolError::InvalidSplitConfig => "InvalidSplitConfig"@,
        }
    }
}

} // verus!
