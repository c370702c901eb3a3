//! Why a contract call was refused. Each variant is one of the messages with
//! which the contracts abort a transaction.
use vstd::prelude::*;
use vstd::string::StringSliceAdditionalSpecFns;

use crate::bytes::{append_bytes, append_text, Address};

verus! {

/// The reason a call was refused; a refused call changes no state.
#[derive(Clone, Copy, Debug, PartialEq, Eq)]
pub enum ContractError {
    /// An owner-only endpoint was called by someone else.
    OnlyOwner,
    GovernanceZero,
    PendingGovernanceNotSet,
    CallerNotPendingGovernance,
    CallerNotAuthorized,
    AuditorZero,
    PendingAuditorNotSet,
    CallerNotPendingAuditor,
    CallerNotAuditor,
    PolicyKeyEmpty,
    PolicyKeyUnsupportedCharacter,
    /// The framework failed to decode the identity record of `subject`,
    /// because none was ever stored under its key.
    IdentityStorageDecode { subject: Address },
    EmptyReportId,
    EmptyPublicTenantId,
    EmptyPublicFarmId,
    EmptyPublicSeasonId,
    EmptyReportHash,
    EmptyHashAlgo,
    EmptyCanonicalization,
    ConflictingReportProof,
}

impl ContractError {
    /// The message with which the transaction is aborted.
    pub open spec fn message_text(self) -> Seq<char> {
        match self {
            ContractError::OnlyOwner => "Endpoint can only be called by owner"@,
            ContractError::GovernanceZero => "governance must not be zero"@,
            ContractError::PendingGovernanceNotSet => "pending governance not set"@,
            ContractError::CallerNotPendingGovernance => "caller not pending governance"@,
            ContractError::CallerNotAuthorized => "caller not authorized"@,
            ContractError::AuditorZero => "auditor must not be zero"@,
            ContractError::PendingAuditorNotSet => "pending auditor not set"@,
            ContractError::CallerNotPendingAuditor => "caller not pending auditor"@,
            ContractError::CallerNotAuditor => "caller not auditor"@,
            ContractError::PolicyKeyEmpty => "policy key must not be empty"@,
            ContractError::PolicyKeyUnsupportedCharacter =>
                "policy key contains unsupported character"@,
            ContractError::IdentityStorageDecode { .. } => "storage decode error"@,
            ContractError::EmptyReportId => "empty report id"@,
            ContractError::EmptyPublicTenantId => "empty public tenant id"@,
            ContractError::EmptyPublicFarmId => "empty public farm id"@,
            ContractError::EmptyPublicSeasonId => "empty public season id"@,
            ContractError::EmptyReportHash => "empty report hash"@,
            ContractError::EmptyHashAlgo => "empty hash algo"@,
            ContractError::EmptyCanonicalization => "empty canonicalization"@,
            ContractError::ConflictingReportProof => "conflicting report proof"@,
        }
    }

    /// The text of a message that holds no variable part.
    fn fixed_text(&self) -> (m: &'static str)
        requires
            !(self is IdentityStorageDecode),
        ensures
            m@ == self.message_text(),
    {
        match self {
            ContractError::OnlyOwner => "Endpoint can only be called by owner",
            ContractError::GovernanceZero => "governance must not be zero",
            ContractError::PendingGovernanceNotSet => "pending governance not set",
            ContractError::CallerNotPendingGovernance => "caller not pending governance",
            ContractError::CallerNotAuthorized => "caller not authorized",
            ContractError::AuditorZero => "auditor must not be zero",
            ContractError::PendingAuditorNotSet => "pending auditor not set",
            ContractError::CallerNotPendingAuditor => "caller not pending auditor",
            ContractError::CallerNotAuditor => "caller not auditor",
            ContractError::PolicyKeyEmpty => "policy key must not be empty",
            ContractError::PolicyKeyUnsupportedCharacter =>
                "policy key contains unsupported character",
            ContractError::IdentityStorageDecode { .. } => "storage decode error",
            ContractError::EmptyReportId => "empty report id",
            ContractError::EmptyPublicTenantId => "empty public tenant id",
            ContractError::EmptyPublicFarmId => "empty public farm id",
            ContractError::EmptyPublicSeasonId => "empty public season id",
            ContractError::EmptyReportHash => "empty report hash",
            ContractError::EmptyHashAlgo => "empty hash algo",
            ContractError::EmptyCanonicalization => "empty canonicalization",
            ContractError::ConflictingReportProof => "conflicting report proof",
        }
    }

    /// The bytes with which the transaction is aborted. A failed decode of a
    /// stored identity names the storage key (`identity`, then the 32 bytes
    /// of the subject's address) and the decoder's complaint, as the
    /// framework's storage reader composes it.
    pub open spec fn message_bytes(self) -> Seq<u8> {
        match self {
            ContractError::IdentityStorageDecode { subject } => "storage decode error (key: identity".spec_bytes()
                + subject@ + "): input too short".spec_bytes(),
            _ => vstd::utf8::encode_utf8(self.message_text()),
        }
    }

    /// The bytes with which the transaction is aborted.
    pub fn message(&self) -> (m: Vec<u8>)
        ensures
            m@ == self.message_bytes(),
    {
        let mut m: Vec<u8> = Vec::new();
        match self {
            ContractError::IdentityStorageDecode { subject } => {
                append_text(&mut m, "storage decode error (key: identity");
                append_bytes(&mut m, subject.bytes.as_slice());
                append_text(&mut m, "): input too short");
            },
            _ => {
                append_text(&mut m, self.fixed_text());
            },
        }
        m
    }
}

} // verus!
