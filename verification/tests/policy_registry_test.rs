use drwa_contracts::events::DrwaEvent;
use drwa_contracts::bytes::Address;
use drwa_contracts::error::ContractError;
use drwa_contracts::policy_registry::{
    require_json_safe_key, serialize_policy_json, DrwaPolicyRegistry,
};
use drwa_contracts::sync::{DrwaCallerDomain, DrwaSyncOperationType, DrwaTokenPolicy};

fn address(name: &str) -> Address {
    let mut bytes = [b'_'; 32];
    bytes[..name.len()].copy_from_slice(name.as_bytes());
    Address::new(bytes)
}

fn owner() -> Address {
    address("owner")
}

fn governance() -> Address {
    address("governance")
}

fn buf(s: &str) -> Vec<u8> {
    s.as_bytes().to_vec()
}

#[test]
fn policy_registry_whitebox_flow() {
    let mut sc = DrwaPolicyRegistry::init(owner());

    let mut investor_classes = Vec::new();
    investor_classes.push(buf("ACCREDITED"));

    let mut jurisdictions = Vec::new();
    jurisdictions.push(buf("SG"));

    let envelope = sc
        .set_token_policy(
            &owner(),
            buf("CARBON-001"),
            true,
            false,
            true,
            true,
            investor_classes,
            jurisdictions,
        )
        .unwrap();

    assert!(envelope.caller_domain == DrwaCallerDomain::PolicyRegistry);
    assert_eq!(envelope.operations.len(), 1);

    let operation = &envelope.operations[0];
    assert!(operation.operation_type == DrwaSyncOperationType::TokenPolicy);
    assert_eq!(operation.version, 1);
    assert!(!envelope.payload_hash.is_empty());

    let token_id = buf("CARBON-001");
    let policy = sc.token_policy(&token_id).unwrap();
    assert!(policy.drwa_enabled);
    assert!(policy.strict_auditor_mode);
    assert!(policy.metadata_protection_enabled);
    assert_eq!(policy.token_policy_version, 1);
    assert_eq!(sc.token_policy_version(&token_id), 1);
}

#[test]
fn policy_registry_increments_version_and_rejects_non_owner() {
    let mut sc = DrwaPolicyRegistry::init(owner());

    for version in [1u64, 2u64] {
        let mut investor_classes = Vec::new();
        investor_classes.push(buf("ACCREDITED"));

        let mut jurisdictions = Vec::new();
        jurisdictions.push(buf("SG"));

        let envelope = sc
            .set_token_policy(
                &owner(),
                buf("CARBON-001"),
                true,
                version == 2,
                true,
                true,
                investor_classes,
                jurisdictions,
            )
            .unwrap();
        assert_eq!(envelope.operations[0].version, version);
    }

    let token_id = buf("CARBON-001");
    let policy = sc.token_policy(&token_id).unwrap();
    assert_eq!(policy.token_policy_version, 2);
    assert!(policy.global_pause);
}

#[test]
fn policy_registry_persists_explicit_drwa_enabled_state() {
    let mut sc = DrwaPolicyRegistry::init(owner());

    let envelope = sc
        .set_token_policy(
            &owner(),
            buf("CARBON-002"),
            false,
            false,
            false,
            false,
            Vec::new(),
            Vec::new(),
        )
        .unwrap();
    assert_eq!(envelope.operations[0].version, 1);

    let token_id = buf("CARBON-002");
    let policy = sc.token_policy(&token_id).unwrap();
    assert!(!policy.drwa_enabled);
}

#[test]
fn policy_registry_allows_governance_to_set_policy() {
    let mut sc = DrwaPolicyRegistry::init(owner());

    sc.set_governance(&owner(), governance()).unwrap();
    sc.accept_governance(&governance()).unwrap();

    let envelope = sc
        .set_token_policy(
            &governance(),
            buf("CARBON-003"),
            true,
            false,
            false,
            false,
            Vec::new(),
            Vec::new(),
        )
        .unwrap();
    assert_eq!(envelope.operations[0].version, 1);
}

#[test]
fn policy_registry_requires_pending_governance_acceptance() {
    let mut sc = DrwaPolicyRegistry::init(owner());

    sc.set_governance(&owner(), governance()).unwrap();
    assert_eq!(sc.pending_governance(), Some(governance()));

    assert!(sc.governance().is_none());
}

fn policy(classes: Vec<Vec<u8>>, jurisdictions: Vec<Vec<u8>>) -> DrwaTokenPolicy {
    DrwaTokenPolicy {
        drwa_enabled: true,
        global_pause: false,
        strict_auditor_mode: true,
        metadata_protection_enabled: true,
        token_policy_version: 1,
        allowed_investor_classes: classes,
        allowed_jurisdictions: jurisdictions,
    }
}

#[test]
fn policy_json_layout() {
    let body = serialize_policy_json(&policy(vec![buf("ACCREDITED")], vec![buf("SG")])).unwrap();
    assert_eq!(
        String::from_utf8(body).unwrap(),
        "{\"drwa_enabled\":true,\"global_pause\":false,\"strict_auditor_mode\":true,\"metadata_protection_enabled\":true,\"allowed_investor_classes\":{\"ACCREDITED\":true},\"allowed_jurisdictions\":{\"SG\":true}}"
    );
    let body = serialize_policy_json(&policy(vec![buf("A"), buf("b-2"), buf("c_3.x")], vec![])).unwrap();
    assert_eq!(
        String::from_utf8(body).unwrap(),
        "{\"drwa_enabled\":true,\"global_pause\":false,\"strict_auditor_mode\":true,\"metadata_protection_enabled\":true,\"allowed_investor_classes\":{\"A\":true,\"b-2\":true,\"c_3.x\":true}}"
    );
    let body = serialize_policy_json(&policy(vec![], vec![])).unwrap();
    assert_eq!(
        String::from_utf8(body).unwrap(),
        "{\"drwa_enabled\":true,\"global_pause\":false,\"strict_auditor_mode\":true,\"metadata_protection_enabled\":true}"
    );
}

#[test]
fn policy_keys_outside_the_alphabet_are_refused() {
    assert_eq!(require_json_safe_key(&buf("SG")), Ok(()));
    assert_eq!(require_json_safe_key(&buf("")), Err(ContractError::PolicyKeyEmpty));
    assert_eq!(
        require_json_safe_key(&buf("a\"b")),
        Err(ContractError::PolicyKeyUnsupportedCharacter)
    );
    assert_eq!(
        require_json_safe_key(&buf("a b")),
        Err(ContractError::PolicyKeyUnsupportedCharacter)
    );
    assert_eq!(
        ContractError::PolicyKeyUnsupportedCharacter.message(),
        "policy key contains unsupported character".as_bytes()
    );
    assert_eq!(
        serialize_policy_json(&policy(vec![buf("ok")], vec![buf("")])).unwrap_err(),
        ContractError::PolicyKeyEmpty
    );
    assert_eq!(
        serialize_policy_json(&policy(vec![buf("x}")], vec![buf("")])).unwrap_err(),
        ContractError::PolicyKeyUnsupportedCharacter
    );

    let mut sc = DrwaPolicyRegistry::init(owner());
    let refused = sc.set_token_policy(
        &owner(),
        buf("CARBON-004"),
        true,
        false,
        false,
        false,
        vec![buf("bad\\key")],
        Vec::new(),
    );
    assert_eq!(refused.unwrap_err(), ContractError::PolicyKeyUnsupportedCharacter);
    assert!(sc.token_policy(&buf("CARBON-004")).is_none());
    assert_eq!(sc.token_policy_version(&buf("CARBON-004")), 0);
}

#[test]
fn policy_envelope_is_sealed_with_keccak_of_payload() {
    let mut sc = DrwaPolicyRegistry::init(owner());
    let envelope = sc
        .set_token_policy(
            &owner(),
            buf("CARBON-001"),
            true,
            false,
            true,
            true,
            vec![buf("ACCREDITED")],
            vec![buf("SG")],
        )
        .unwrap();
    let expected: Vec<u8> = (0..32)
        .map(|i| {
            u8::from_str_radix(
                &"1160e07b68418e468bab8c68d163daf7a903dffdc73217f920e0e944370ef8fa"[2 * i..2 * i + 2],
                16,
            )
            .unwrap()
        })
        .collect();
    assert_eq!(envelope.payload_hash, expected);
    assert_eq!(envelope.operations[0].holder, Address::zero());
    assert_eq!(
        sc.set_token_policy(
            &address("stranger"),
            buf("CARBON-001"),
            false,
            false,
            false,
            false,
            vec![],
            vec![]
        )
        .unwrap_err(),
        ContractError::CallerNotAuthorized
    );
    assert_eq!(sc.token_policy_version(&buf("CARBON-001")), 1);
}

#[test]
fn policy_registry_logs_policy_event_with_version() {
    let mut sc = DrwaPolicyRegistry::init(owner());
    sc.set_token_policy(&owner(), buf("CARBON-001"), true, true, false, false, vec![], vec![])
        .unwrap();
    let _ = sc.set_token_policy(&owner(), buf("CARBON-001"), true, true, false, false, vec![buf("")], vec![]);
    sc.set_token_policy(&owner(), buf("CARBON-001"), false, true, true, false, vec![], vec![])
        .unwrap();
    let events = sc.events();
    assert_eq!(events.len(), 2);
    assert!(matches!(
        &events[1],
        DrwaEvent::TokenPolicy {
            token_id,
            drwa_enabled: false,
            global_pause: true,
            strict_auditor_mode: true,
            token_policy_version: 2,
        } if *token_id == buf("CARBON-001")
    ));
}
