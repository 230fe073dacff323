//! The named conditions under which a call is refused.

use vstd::prelude::*;

verus! {

/// Why a call was refused. Each refusal leaves all state as it was.
#[derive(Clone, Copy, Debug, PartialEq, Eq)]
pub enum ZkError {
    /// The fee account is not owned by the hub program.
    ConfigOwnerMismatch,
    /// The fee account's bytes do not hold the hub's fee record.
    BridgeDeserialize,
    /// The caller is not the registry's administrator.
    NotAdmin,
    /// The proof account is not owned by the hub program.
    InvalidPostedVaaOwner,
    /// The emitter is not the one the registry expects.
    EmitterAddressMismatch,
    /// The finality flag names neither of the two finality levels.
    UnsupportedFinality,
    /// The fee could not be moved from the payer to the fee collector.
    PaymentFailed,
    /// A receipt for this emitter and sequence has been recorded before.
    ReceiptAlreadyRecorded,
    /// The registry's configuration has been set before.
    ConfigAlreadyInitialized,
    /// The registry's configuration has not been set yet.
    ConfigNotInitialized,
}

/// The three kinds of refusal.
#[derive(Clone, Copy, Debug, PartialEq, Eq)]
pub enum ErrorKind {
    /// The wrong administrator, or an account of the wrong owner.
    Authorization,
    /// Input that does not hold what it must.
    DataIntegrity,
    /// Funds or storage that cannot be had.
    Resource,
}

impl ZkError {
    /// The kind of a refusal.
    pub open spec fn kind_spec(self) -> ErrorKind {
        match self {
            ZkError::ConfigOwnerMismatch => ErrorKind::Authorization,
            ZkError::InvalidPostedVaaOwner => ErrorKind::Authorization,
            ZkError::NotAdmin => ErrorKind::Authorization,
            ZkError::BridgeDeserialize => ErrorKind::DataIntegrity,
            ZkError::EmitterAddressMismatch => ErrorKind::DataIntegrity,
            ZkError::UnsupportedFinality => ErrorKind::DataIntegrity,
            ZkError::PaymentFailed => ErrorKind::Resource,
            ZkError::ReceiptAlreadyRecorded => ErrorKind::Resource,
            ZkError::ConfigAlreadyInitialized => ErrorKind::Resource,
            ZkError::ConfigNotInitialized => ErrorKind::Resource,
        }
    }

    /// The kind of a refusal.
    pub fn kind(&self) -> (kind: ErrorKind)
        ensures
            kind == self.kind_spec(),
    {
        match self {
            ZkError::ConfigOwnerMismatch | ZkError::InvalidPostedVaaOwner | ZkError::NotAdmin => {
                ErrorKind::Authorization
            },
            ZkError::BridgeDeserialize
            | ZkError::EmitterAddressMismatch
            | ZkError::UnsupportedFinality => ErrorKind::DataIntegrity,
            ZkError::PaymentFailed
            | ZkError::ReceiptAlreadyRecorded
            | ZkError::ConfigAlreadyInitialized
            | ZkError::ConfigNotInitialized => ErrorKind::Resource,
        }
    }
}

} // verus!
