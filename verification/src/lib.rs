//! Verified contract logic of a regulated-asset (DRWA) compliance suite and
//! an MRV report registry: the policy registry, the asset manager, the
//! identity registry, the attestation registry, the sync payloads that mirror
//! their records to the chain's enforcement layer, and the report registry.
//! Each contract is a state machine: a call takes the caller (and, where the
//! contract reads it, the block round) and either refuses with an error,
//! changing nothing, or moves to the next state.
pub mod bytes;
pub mod error;
pub mod store;
pub mod crypto;
pub mod sync;
pub mod events;
pub mod asset_manager;
pub mod policy_registry;
pub mod identity_registry;
pub mod attestation;
pub mod mrv;
pub mod laws;
