use drwa_contracts::asset_manager::{append_len_prefixed, DrwaAssetManager};
use drwa_contracts::bytes::{push_len_prefixed, Address};
use drwa_contracts::sync::{
    build_sync_hook_payload, serialize_sync_envelope_payload, DrwaCallerDomain, DrwaHolderMirror,
    DrwaSyncOperation, DrwaSyncOperationType,
};

fn address(name: &str) -> Address {
    let mut bytes = [b'_'; 32];
    bytes[..name.len()].copy_from_slice(name.as_bytes());
    Address::new(bytes)
}

fn buf(s: &str) -> Vec<u8> {
    s.as_bytes().to_vec()
}

fn hex(s: &str) -> Vec<u8> {
    (0..s.len()).step_by(2).map(|i| u8::from_str_radix(&s[i..i + 2], 16).unwrap()).collect()
}

const HOLDER_BODY: &str = "000000000000000100000008617070726f76656400000008617070726f7665640000000a6163637265646974656400000002534700000000000000fa000001";
const PAYLOAD: &str = "010100000009484f54454c2d30303100000020686f6c6465725f5f5f5f5f5f5f5f5f5f5f5f5f5f5f5f5f5f5f5f5f5f5f5f5f5f00000000000000010000003f000000000000000100000008617070726f76656400000008617070726f7665640000000a6163637265646974656400000002534700000000000000fa000001";
const PAYLOAD_HASH: &str = "49b1e675cab5a5b3d5ebd736fe7fa96c3634afe011f380d675de001ef45ca98f";

fn mirror() -> DrwaHolderMirror {
    DrwaHolderMirror {
        holder_policy_version: 1,
        kyc_status: buf("approved"),
        aml_status: buf("approved"),
        investor_class: buf("accredited"),
        jurisdiction_code: buf("SG"),
        expiry_round: 250,
        transfer_locked: false,
        receive_locked: false,
        auditor_authorized: true,
    }
}

#[test]
fn len_prefix_is_four_big_endian_bytes() {
    let mut dest = vec![9u8];
    push_len_prefixed(&mut dest, &buf("abc"));
    assert_eq!(dest, vec![9, 0, 0, 0, 3, b'a', b'b', b'c']);
    let mut other = Vec::new();
    append_len_prefixed(&mut other, &vec![7u8; 300]);
    assert_eq!(&other[..4], &[0, 0, 1, 44]);
    assert_eq!(other.len(), 304);
}

#[test]
fn holder_body_layout() {
    assert_eq!(DrwaAssetManager::serialize_holder(&mirror()), hex(HOLDER_BODY));
}

#[test]
fn envelope_payload_layout_and_hook_payload() {
    let operations = vec![DrwaSyncOperation {
        operation_type: DrwaSyncOperationType::HolderMirror,
        token_id: buf("HOTEL-001"),
        holder: address("holder"),
        version: 1,
        body: hex(HOLDER_BODY),
    }];
    let payload = serialize_sync_envelope_payload(&DrwaCallerDomain::AssetManager, &operations);
    assert_eq!(payload, hex(PAYLOAD));

    let hash = hex(PAYLOAD_HASH);
    let hook = build_sync_hook_payload(&DrwaCallerDomain::AssetManager, &operations, &hash);
    assert_eq!(&hook[..32], &hash[..]);
    assert_eq!(&hook[32..], &payload[..]);
}

#[test]
fn empty_batch_payload_is_the_domain_tag() {
    let none: Vec<DrwaSyncOperation> = Vec::new();
    assert_eq!(serialize_sync_envelope_payload(&DrwaCallerDomain::PolicyRegistry, &none), vec![0]);
    assert_eq!(serialize_sync_envelope_payload(&DrwaCallerDomain::AssetManager, &none), vec![1]);
    assert_eq!(serialize_sync_envelope_payload(&DrwaCallerDomain::RecoveryAdmin, &none), vec![2]);
}

#[test]
fn two_operations_follow_each_other() {
    let op = |t: DrwaSyncOperationType, v: u64| DrwaSyncOperation {
        operation_type: t,
        token_id: buf("T"),
        holder: Address::zero(),
        version: v,
        body: vec![],
    };
    let ops = vec![op(DrwaSyncOperationType::HolderMirrorDelete, 5), op(DrwaSyncOperationType::TokenPolicy, 6)];
    let payload = serialize_sync_envelope_payload(&DrwaCallerDomain::RecoveryAdmin, &ops);
    let mut expected = vec![2u8];
    for (tag, v) in [(2u8, 5u64), (0u8, 6u64)] {
        expected.push(tag);
        expected.extend_from_slice(&[0, 0, 0, 1, b'T']);
        expected.extend_from_slice(&[0, 0, 0, 32]);
        expected.extend_from_slice(&[0u8; 32]);
        expected.extend_from_slice(&v.to_be_bytes());
        expected.extend_from_slice(&[0, 0, 0, 0]);
    }
    assert_eq!(payload, expected);
}

#[test]
fn sync_envelope_is_sealed_with_keccak_of_payload() {
    let owner = address("owner");
    let mut sc = DrwaAssetManager::init(owner);
    let envelope = sc
        .sync_holder_compliance(
            &owner,
            buf("HOTEL-001"),
            address("holder"),
            buf("approved"),
            buf("approved"),
            buf("accredited"),
            buf("SG"),
            250,
            false,
            false,
            true,
        )
        .unwrap();
    assert_eq!(envelope.operations[0].body, hex(HOLDER_BODY));
    assert_eq!(envelope.payload_hash, hex(PAYLOAD_HASH));
    let payload = serialize_sync_envelope_payload(&envelope.caller_domain, &envelope.operations);
    assert_eq!(payload, hex(PAYLOAD));
}

#[test]
fn payload_keeps_field_boundaries() {
    let op = |token: &str, body: &str| DrwaSyncOperation {
        operation_type: DrwaSyncOperationType::HolderMirror,
        token_id: buf(token),
        holder: Address::zero(),
        version: 1,
        body: buf(body),
    };
    let a = serialize_sync_envelope_payload(&DrwaCallerDomain::AssetManager, &vec![op("AB", "C")]);
    let b = serialize_sync_envelope_payload(&DrwaCallerDomain::AssetManager, &vec![op("A", "BC")]);
    let c = serialize_sync_envelope_payload(&DrwaCallerDomain::PolicyRegistry, &vec![op("AB", "C")]);
    assert_ne!(a, b);
    assert_ne!(a, c);
}
