//! The records that the registries mirror to the chain's enforcement layer,
//! and the canonical binary payload that carries them.
use vstd::prelude::*;

use crate::bytes::{
    append_bytes, append_u64_be, len_prefixed, lemma_len_prefixed_split, lemma_u64_be_split,
    push_len_prefixed, u64_be, Address,
};

verus! {

/// What a sync operation carries.
#[derive(Clone, Copy, Debug, PartialEq, Eq, Structural)]
pub enum DrwaSyncOperationType {
    TokenPolicy,
    HolderMirror,
    HolderMirrorDelete,
}

/// Which contract emitted a sync envelope.
#[derive(Clone, Copy, Debug, PartialEq, Eq, Structural)]
pub enum DrwaCallerDomain {
    PolicyRegistry,
    AssetManager,
    RecoveryAdmin,
}

/// The compliance policy of a token.
#[derive(Clone, Debug)]
pub struct DrwaTokenPolicy {
    pub drwa_enabled: bool,
    pub global_pause: bool,
    pub strict_auditor_mode: bool,
    pub metadata_protection_enabled: bool,
    pub token_policy_version: u64,
    pub allowed_investor_classes: Vec<Vec<u8>>,
    pub allowed_jurisdictions: Vec<Vec<u8>>,
}

/// The compliance state of one holder of one token.
#[derive(Clone, Debug)]
pub struct DrwaHolderMirror {
    pub holder_policy_version: u64,
    pub kyc_status: Vec<u8>,
    pub aml_status: Vec<u8>,
    pub investor_class: Vec<u8>,
    pub jurisdiction_code: Vec<u8>,
    pub expiry_round: u64,
    pub transfer_locked: bool,
    pub receive_locked: bool,
    pub auditor_authorized: bool,
}

/// One record to mirror.
#[derive(Clone, Debug)]
pub struct DrwaSyncOperation {
    pub operation_type: DrwaSyncOperationType,
    pub token_id: Vec<u8>,
    pub holder: Address,
    pub version: u64,
    pub body: Vec<u8>,
}

/// A batch of sync operations with the digest of their canonical payload.
#[derive(Clone, Debug)]
pub struct DrwaSyncEnvelope {
    pub caller_domain: DrwaCallerDomain,
    pub payload_hash: Vec<u8>,
    pub operations: Vec<DrwaSyncOperation>,
}

/// The content of a holder mirror.
pub struct HolderMirrorView {
    pub holder_policy_version: u64,
    pub kyc_status: Seq<u8>,
    pub aml_status: Seq<u8>,
    pub investor_class: Seq<u8>,
    pub jurisdiction_code: Seq<u8>,
    pub expiry_round: u64,
    pub transfer_locked: bool,
    pub receive_locked: bool,
    pub auditor_authorized: bool,
}

impl View for DrwaHolderMirror {
    type V = HolderMirrorView;

    open spec fn view(&self) -> HolderMirrorView {
        HolderMirrorView {
            holder_policy_version: self.holder_policy_version,
            kyc_status: self.kyc_status@,
            aml_status: self.aml_status@,
            investor_class: self.investor_class@,
            jurisdiction_code: self.jurisdiction_code@,
            expiry_round: self.expiry_round,
            transfer_locked: self.transfer_locked,
            receive_locked: self.receive_locked,
            auditor_authorized: self.auditor_authorized,
        }
    }
}

/// The content of a token policy.
pub struct TokenPolicyView {
    pub drwa_enabled: bool,
    pub global_pause: bool,
    pub strict_auditor_mode: bool,
    pub metadata_protection_enabled: bool,
    pub token_policy_version: u64,
    pub allowed_investor_classes: Seq<Seq<u8>>,
    pub allowed_jurisdictions: Seq<Seq<u8>>,
}

impl View for DrwaTokenPolicy {
    type V = TokenPolicyView;

    open spec fn view(&self) -> TokenPolicyView {
        TokenPolicyView {
            drwa_enabled: self.drwa_enabled,
            global_pause: self.global_pause,
            strict_auditor_mode: self.strict_auditor_mode,
            metadata_protection_enabled: self.metadata_protection_enabled,
            token_policy_version: self.token_policy_version,
            allowed_investor_classes: self.allowed_investor_classes@.map_values(|k: Vec<u8>| k@),
            allowed_jurisdictions: self.allowed_jurisdictions@.map_values(|k: Vec<u8>| k@),
        }
    }
}

/// The byte that stands for a caller domain in the payload.
pub open spec fn caller_domain_tag(d: DrwaCallerDomain) -> u8 {
    match d {
        DrwaCallerDomain::PolicyRegistry => 0u8,
        DrwaCallerDomain::AssetManager => 1u8,
        DrwaCallerDomain::RecoveryAdmin => 2u8,
    }
}

/// The byte that stands for an operation type in the payload.
pub open spec fn operation_type_tag(t: DrwaSyncOperationType) -> u8 {
    match t {
        DrwaSyncOperationType::TokenPolicy => 0u8,
        DrwaSyncOperationType::HolderMirror => 1u8,
        DrwaSyncOperationType::HolderMirrorDelete => 2u8,
    }
}

/// The encoding of one operation: its type byte, the length-prefixed token id
/// and holder address, the version as eight big-endian bytes, and the
/// length-prefixed body.
pub open spec fn operation_bytes(op: DrwaSyncOperation) -> Seq<u8> {
    seq![operation_type_tag(op.operation_type)] + len_prefixed(op.token_id@) + len_prefixed(
        op.holder@,
    ) + u64_be(op.version) + len_prefixed(op.body@)
}

/// The encodings of the operations, one after the other.
pub open spec fn operations_bytes(ops: Seq<DrwaSyncOperation>) -> Seq<u8>
    decreases ops.len(),
{
    if ops.len() == 0 {
        Seq::empty()
    } else {
        operations_bytes(ops.drop_last()) + operation_bytes(ops.last())
    }
}

/// The canonical payload: the caller domain byte, then every operation.
pub open spec fn envelope_payload(d: DrwaCallerDomain, ops: Seq<DrwaSyncOperation>) -> Seq<u8> {
    seq![caller_domain_tag(d)] + operations_bytes(ops)
}

/// The hook payload: the payload hash, then the canonical payload.
pub open spec fn hook_payload(
    d: DrwaCallerDomain,
    ops: Seq<DrwaSyncOperation>,
    payload_hash: Seq<u8>,
) -> Seq<u8> {
    payload_hash + envelope_payload(d, ops)
}

impl DrwaCallerDomain {
    /// The byte that stands for the domain in the payload.
    pub fn tag(&self) -> (t: u8)
        ensures
            t == caller_domain_tag(*self),
    {
        match self {
            DrwaCallerDomain::PolicyRegistry => 0u8,
            DrwaCallerDomain::AssetManager => 1u8,
            DrwaCallerDomain::RecoveryAdmin => 2u8,
        }
    }
}

impl DrwaSyncOperationType {
    /// The byte that stands for the operation type in the payload.
    pub fn tag(&self) -> (t: u8)
        ensures
            t == operation_type_tag(*self),
    {
        match self {
            DrwaSyncOperationType::TokenPolicy => 0u8,
            DrwaSyncOperationType::HolderMirror => 1u8,
            DrwaSyncOperationType::HolderMirrorDelete => 2u8,
        }
    }
}

/// Builds the canonical binary payload of a batch of operations.
pub fn serialize_sync_envelope_payload(
    caller_domain: &DrwaCallerDomain,
    operations: &Vec<DrwaSyncOperation>,
) -> (result: Vec<u8>)
    ensures
        result@ == envelope_payload(*caller_domain, operations@),
{
    let mut result: Vec<u8> = Vec::new();
    result.push(caller_domain.tag());
    let mut i: usize = 0;
    while i < operations.len()
        invariant
            i <= operations@.len(),
            result@ == seq![caller_domain_tag(*caller_domain)] + operations_bytes(
                operations@.subrange(0, i as int),
            ),
        decreases operations@.len() - i,
    {
        let operation = &operations[i];
        let ghost before = result@;
        result.push(operation.operation_type.tag());
        push_len_prefixed(&mut result, &operation.token_id);
        push_len_prefixed(&mut result, &operation.holder.to_vec());
        append_u64_be(&mut result, operation.version);
        push_len_prefixed(&mut result, &operation.body);
        proof {
            let prefix = operations@.subrange(0, i as int + 1);
            assert(prefix.drop_last() =~= operations@.subrange(0, i as int));
            assert(prefix.last() == operations@[i as int]);
            assert(result@ =~= before + operation_bytes(operations@[i as int]));
        }
        i = i + 1;
    }
    assert(operations@.subrange(0, operations@.len() as int) =~= operations@);
    result
}

/// Builds the hook payload: the payload hash, then the canonical binary
/// payload. The decoder on the other side splits it at offset 32. That
/// decoder guesses that a body is JSON when its first byte is `{`; a hook
/// payload starts with the first byte of the hash, which is `{` for some
/// hashes, so the guess is the decoder's heuristic and not a property of the
/// payload.
pub fn build_sync_hook_payload(
    caller_domain: &DrwaCallerDomain,
    operations: &Vec<DrwaSyncOperation>,
    payload_hash: &Vec<u8>,
) -> (result: Vec<u8>)
    ensures
        result@ == hook_payload(*caller_domain, operations@, payload_hash@),
{
    let canonical_payload = serialize_sync_envelope_payload(caller_domain, operations);
    let mut result: Vec<u8> = Vec::new();
    append_bytes(&mut result, payload_hash.as_slice());
    append_bytes(&mut result, canonical_payload.as_slice());
    assert(result@ =~= hook_payload(*caller_domain, operations@, payload_hash@));
    result
}

/// A hook payload built with a 32-byte hash splits at offset 32 into that
/// hash and the canonical payload.
pub proof fn law_hook_payload_splits_at_hash(
    d: DrwaCallerDomain,
    ops: Seq<DrwaSyncOperation>,
    payload_hash: Seq<u8>,
)
    requires
        payload_hash.len() == 32,
    ensures
        hook_payload(d, ops, payload_hash).subrange(0, 32) == payload_hash,
        hook_payload(d, ops, payload_hash).subrange(
            32,
            hook_payload(d, ops, payload_hash).len() as int,
        ) == envelope_payload(d, ops),
{
    assert(hook_payload(d, ops, payload_hash).subrange(0, 32) =~= payload_hash);
    assert(hook_payload(d, ops, payload_hash).subrange(
        32,
        hook_payload(d, ops, payload_hash).len() as int,
    ) =~= envelope_payload(d, ops));
}

/// Two operations carry the same content.
pub open spec fn same_operation(a: DrwaSyncOperation, b: DrwaSyncOperation) -> bool {
    &&& a.operation_type == b.operation_type
    &&& a.token_id@ == b.token_id@
    &&& a.holder@ == b.holder@
    &&& a.version == b.version
    &&& a.body@ == b.body@
}

/// The token id and body of an operation are shorter than 2^32 bytes, so
/// their length prefixes are exact.
pub open spec fn operation_fits(op: DrwaSyncOperation) -> bool {
    op.token_id@.len() <= u32::MAX && op.body@.len() <= u32::MAX
}

/// An encoded operation can be read back from the front of a sequence.
proof fn lemma_operation_split(
    a: DrwaSyncOperation,
    rest_a: Seq<u8>,
    b: DrwaSyncOperation,
    rest_b: Seq<u8>,
)
    requires
        operation_fits(a),
        operation_fits(b),
        operation_bytes(a) + rest_a == operation_bytes(b) + rest_b,
    ensures
        same_operation(a, b),
        rest_a == rest_b,
{
    let ra4 = len_prefixed(a.body@) + rest_a;
    let ra3 = u64_be(a.version) + ra4;
    let ra2 = len_prefixed(a.holder@) + ra3;
    let ra1 = len_prefixed(a.token_id@) + ra2;
    let rb4 = len_prefixed(b.body@) + rest_b;
    let rb3 = u64_be(b.version) + rb4;
    let rb2 = len_prefixed(b.holder@) + rb3;
    let rb1 = len_prefixed(b.token_id@) + rb2;
    let xa = seq![operation_type_tag(a.operation_type)] + ra1;
    let xb = seq![operation_type_tag(b.operation_type)] + rb1;
    assert(operation_bytes(a) + rest_a =~= xa);
    assert(operation_bytes(b) + rest_b =~= xb);
    assert(xa[0] == xb[0]);
    assert(a.operation_type == b.operation_type);
    assert(xa.subrange(1, xa.len() as int) =~= ra1);
    assert(xb.subrange(1, xb.len() as int) =~= rb1);
    lemma_len_prefixed_split(a.token_id@, ra2, b.token_id@, rb2);
    lemma_len_prefixed_split(a.holder@, ra3, b.holder@, rb3);
    lemma_u64_be_split(a.version, ra4, b.version, rb4);
    lemma_len_prefixed_split(a.body@, rest_a, b.body@, rest_b);
}

/// The encodings of a non-empty list are the first operation's, then the
/// rest's.
proof fn lemma_operations_bytes_cons(ops: Seq<DrwaSyncOperation>)
    requires
        ops.len() > 0,
    ensures
        operations_bytes(ops) == operation_bytes(ops[0]) + operations_bytes(ops.drop_first()),
    decreases ops.len(),
{
    if ops.len() == 1 {
        assert(ops.drop_last() =~= Seq::<DrwaSyncOperation>::empty());
        assert(ops.drop_first() =~= Seq::<DrwaSyncOperation>::empty());
        assert(operations_bytes(ops.drop_last()) =~= Seq::<u8>::empty());
        assert(operations_bytes(ops.drop_first()) =~= Seq::<u8>::empty());
        assert(ops.last() == ops[0]);
        assert(operations_bytes(ops) =~= operation_bytes(ops[0]));
        assert(operations_bytes(ops) =~= operation_bytes(ops[0]) + operations_bytes(
            ops.drop_first(),
        ));
    } else {
        let init = ops.drop_last();
        lemma_operations_bytes_cons(init);
        assert(init[0] == ops[0]);
        assert(ops.drop_first().drop_last() =~= init.drop_first());
        assert(ops.drop_first().last() == ops.last());
        assert(operations_bytes(ops) =~= operation_bytes(ops[0]) + operations_bytes(
            ops.drop_first(),
        ));
    }
}

/// The encodings of distinct operation lists differ.
proof fn lemma_operations_bytes_injective(ops1: Seq<DrwaSyncOperation>, ops2: Seq<DrwaSyncOperation>)
    requires
        forall|i: int| 0 <= i < ops1.len() ==> operation_fits(#[trigger] ops1[i]),
        forall|i: int| 0 <= i < ops2.len() ==> operation_fits(#[trigger] ops2[i]),
        operations_bytes(ops1) == operations_bytes(ops2),
    ensures
        ops1.len() == ops2.len(),
        forall|i: int| 0 <= i < ops1.len() ==> same_operation(#[trigger] ops1[i], ops2[i]),
    decreases ops1.len(),
{
    if ops1.len() > 0 {
        lemma_operations_bytes_cons(ops1);
    }
    if ops2.len() > 0 {
        lemma_operations_bytes_cons(ops2);
    }
    if ops1.len() == 0 && ops2.len() > 0 {
        assert(operations_bytes(ops1).len() == 0);
        assert(operations_bytes(ops2).len() >= 1);
    } else if ops1.len() > 0 && ops2.len() == 0 {
        assert(operations_bytes(ops2).len() == 0);
        assert(operations_bytes(ops1).len() >= 1);
    } else if ops1.len() > 0 {
        let rest1 = ops1.drop_first();
        let rest2 = ops2.drop_first();
        assert(operation_fits(ops1[0]));
        assert(operation_fits(ops2[0]));
        lemma_operation_split(ops1[0], operations_bytes(rest1), ops2[0], operations_bytes(rest2));
        assert forall|i: int| 0 <= i < rest1.len() implies operation_fits(#[trigger] rest1[i]) by {
            assert(rest1[i] == ops1[i + 1]);
        }
        assert forall|i: int| 0 <= i < rest2.len() implies operation_fits(#[trigger] rest2[i]) by {
            assert(rest2[i] == ops2[i + 1]);
        }
        lemma_operations_bytes_injective(rest1, rest2);
        assert forall|i: int| 0 <= i < ops1.len() implies same_operation(
            #[trigger] ops1[i],
            ops2[i],
        ) by {
            if i > 0 {
                assert(ops1[i] == rest1[i - 1]);
                assert(ops2[i] == rest2[i - 1]);
            }
        }
    }
}

/// The canonical payload is unambiguous: equal payloads come from the same
/// caller domain and the same operations, field by field, as long as every
/// token id and body is shorter than 2^32 bytes.
pub proof fn law_envelope_payload_unambiguous(
    d1: DrwaCallerDomain,
    ops1: Seq<DrwaSyncOperation>,
    d2: DrwaCallerDomain,
    ops2: Seq<DrwaSyncOperation>,
)
    requires
        forall|i: int| 0 <= i < ops1.len() ==> operation_fits(#[trigger] ops1[i]),
        forall|i: int| 0 <= i < ops2.len() ==> operation_fits(#[trigger] ops2[i]),
        envelope_payload(d1, ops1) == envelope_payload(d2, ops2),
    ensures
        d1 == d2,
        ops1.len() == ops2.len(),
        forall|i: int| 0 <= i < ops1.len() ==> same_operation(#[trigger] ops1[i], ops2[i]),
{
    let p1 = envelope_payload(d1, ops1);
    let p2 = envelope_payload(d2, ops2);
    assert(p1[0] == caller_domain_tag(d1));
    assert(p2[0] == caller_domain_tag(d2));
    assert(d1 == d2);
    assert(p1.subrange(1, p1.len() as int) =~= operations_bytes(ops1));
    assert(p2.subrange(1, p2.len() as int) =~= operations_bytes(ops2));
    lemma_operations_bytes_injective(ops1, ops2);
}

} // verus!
