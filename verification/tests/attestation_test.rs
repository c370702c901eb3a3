use drwa_contracts::events::DrwaEvent;
use drwa_contracts::attestation::DrwaAttestation;
use drwa_contracts::bytes::Address;
use drwa_contracts::error::ContractError;

fn address(name: &str) -> Address {
    let mut bytes = [b'_'; 32];
    bytes[..name.len()].copy_from_slice(name.as_bytes());
    Address::new(bytes)
}

fn owner() -> Address {
    address("owner")
}

fn auditor() -> Address {
    address("auditor")
}

fn subject() -> Address {
    address("subject")
}

fn other() -> Address {
    address("other")
}

fn buf(s: &str) -> Vec<u8> {
    s.as_bytes().to_vec()
}

#[test]
fn attestation_whitebox_flow() {
    let mut sc = DrwaAttestation::init(owner(), auditor());

    sc.record_attestation(
        &auditor(),
        buf("CARBON-001"),
        subject(),
        buf("MRV"),
        buf("hash-001"),
        true,
        0,
    )
    .unwrap();

    let record = sc.attestation(&buf("CARBON-001"), &subject()).unwrap();
    assert_eq!(record.token_id, buf("CARBON-001"));
    assert_eq!(record.attestation_type, buf("MRV"));
    assert_eq!(record.evidence_hash, buf("hash-001"));
    assert!(record.approved);
}

#[test]
fn attestation_rejects_non_auditor() {
    let mut sc = DrwaAttestation::init(owner(), auditor());

    let refused = sc.record_attestation(
        &other(),
        buf("CARBON-001"),
        subject(),
        buf("MRV"),
        buf("hash-001"),
        true,
        0,
    );
    assert_eq!(refused, Err(ContractError::CallerNotAuditor));
    assert_eq!(refused.unwrap_err().message(),
        "caller not auditor".as_bytes());
    assert!(sc.attestation(&buf("CARBON-001"), &subject()).is_none());
}

#[test]
fn attestation_owner_can_rotate_auditor() {
    let mut sc = DrwaAttestation::init(owner(), auditor());

    sc.set_auditor(&owner(), other()).unwrap();
    assert_eq!(sc.pending_auditor(), Some(other()));

    sc.accept_auditor(&other()).unwrap();

    let refused = sc.record_attestation(
        &auditor(),
        buf("CARBON-001"),
        subject(),
        buf("MRV"),
        buf("hash-001"),
        true,
        0,
    );
    assert_eq!(refused, Err(ContractError::CallerNotAuditor));
    assert_eq!(refused.unwrap_err().message(),
        "caller not auditor".as_bytes());

    sc.record_attestation(
        &other(),
        buf("CARBON-001"),
        subject(),
        buf("MRV"),
        buf("hash-rotated"),
        true,
        0,
    )
    .unwrap();
}

#[test]
fn attestation_requires_pending_auditor_acceptance() {
    let mut sc = DrwaAttestation::init(owner(), auditor());

    sc.set_auditor(&owner(), other()).unwrap();

    assert_eq!(sc.auditor(), auditor());
    assert_eq!(sc.pending_auditor(), Some(other()));
}

#[test]
fn attestation_records_round_and_replaces_previous() {
    let mut sc = DrwaAttestation::init(owner(), auditor());
    sc.record_attestation(&auditor(), buf("T"), subject(), buf("MRV"), buf("h1"), true, 41)
        .unwrap();
    sc.record_attestation(&auditor(), buf("T"), subject(), buf("MRV"), buf("h2"), false, 42)
        .unwrap();
    let record = sc.attestation(&buf("T"), &subject()).unwrap();
    assert_eq!(record.evidence_hash, buf("h2"));
    assert!(!record.approved);
    assert_eq!(record.attested_round, 42);
    assert_eq!(record.subject, subject());
    assert!(sc.attestation(&buf("T"), &other()).is_none());
}

#[test]
fn attestation_rotation_errors() {
    let mut sc = DrwaAttestation::init(owner(), auditor());
    assert_eq!(sc.set_auditor(&auditor(), other()), Err(ContractError::OnlyOwner));
    assert_eq!(sc.set_auditor(&owner(), Address::zero()), Err(ContractError::AuditorZero));
    assert_eq!(sc.accept_auditor(&other()), Err(ContractError::PendingAuditorNotSet));
    sc.set_auditor(&owner(), other()).unwrap();
    assert_eq!(sc.accept_auditor(&subject()), Err(ContractError::CallerNotPendingAuditor));
    assert_eq!(ContractError::PendingAuditorNotSet.message(),
        "pending auditor not set".as_bytes());
    assert_eq!(sc.auditor(), auditor());
}

#[test]
fn attestation_logs_rotation_events() {
    let mut sc = DrwaAttestation::init(owner(), auditor());
    sc.set_auditor(&owner(), other()).unwrap();
    sc.accept_auditor(&other()).unwrap();
    let events = sc.events();
    assert_eq!(events.len(), 2);
    assert!(matches!(&events[0], DrwaEvent::AuditorProposed { auditor: a } if *a == other()));
    assert!(matches!(&events[1], DrwaEvent::AuditorAccepted { auditor: a } if *a == other()));
}
