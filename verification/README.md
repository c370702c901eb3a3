# drwa_contracts

Verified logic of the DRWA compliance contracts (policy registry, asset
manager, identity registry, attestation registry) and of the MRV report
registry, written in Verus.

Each contract is a state machine in `src/`: a call takes the caller's address
(and the block round where the contract reads it) and either refuses with a
`ContractError`, leaving the state unchanged, or moves to the state that the
spec functions of the contract's view describe. The sync envelopes that mirror
policies and holder states to the chain's enforcement layer are built and
serialized in `src/sync.rs`; their Keccak-256 seal comes from the MultiversX
framework's crypto API (`src/crypto.rs`, the one trusted item).

- `src/bytes.rs`, `src/store.rs`: addresses, big-endian and length-prefixed
  encodings, byte-keyed storage.
- `src/laws.rs` and the `law_*` proof functions next to their contracts:
  properties that span several calls.
- `app/`: the edge to the VM (managed-type conversion, the sync-mirror host
  call).
