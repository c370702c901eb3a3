use drwa_contracts::events::DrwaEvent;
use drwa_contracts::bytes::Address;
use drwa_contracts::error::ContractError;
use drwa_contracts::identity_registry::DrwaIdentityRegistry;

fn address(name: &str) -> Address {
    let mut bytes = [b'_'; 32];
    bytes[..name.len()].copy_from_slice(name.as_bytes());
    Address::new(bytes)
}

fn owner() -> Address {
    address("owner")
}

fn governance() -> Address {
    address("governance")
}

fn issuer() -> Address {
    address("issuer")
}

fn intruder() -> Address {
    address("intruder")
}

fn buf(s: &str) -> Vec<u8> {
    s.as_bytes().to_vec()
}

#[test]
fn identity_registry_whitebox_flow() {
    let mut sc = DrwaIdentityRegistry::init(owner(), governance());

    sc.register_identity(
        &governance(),
        issuer(),
        buf("Carbon Ventures"),
        buf("SG"),
        buf("REG-001"),
        buf("SPV"),
        0,
    )
    .unwrap();

    sc.update_compliance_status(
        &governance(),
        issuer(),
        buf("approved"),
        buf("approved"),
        buf("issuer"),
        100,
    )
    .unwrap();

    let record = sc.identity(&issuer()).unwrap();
    assert_eq!(record.legal_name, buf("Carbon Ventures"));
    assert_eq!(record.jurisdiction_code, buf("SG"));
    assert_eq!(record.registration_number, buf("REG-001"));
    assert_eq!(record.entity_type, buf("SPV"));
    assert_eq!(record.kyc_status, buf("approved"));
    assert_eq!(record.aml_status, buf("approved"));
    assert_eq!(record.investor_class, buf("issuer"));
    assert_eq!(record.expiry_round, 100);
}

#[test]
fn identity_registry_registration_sets_future_expiry() {
    let mut sc = DrwaIdentityRegistry::init(owner(), governance());

    sc.register_identity(
        &governance(),
        issuer(),
        buf("Carbon Ventures"),
        buf("SG"),
        buf("REG-001"),
        buf("SPV"),
        0,
    )
    .unwrap();

    let record = sc.identity(&issuer()).unwrap();
    assert_eq!(record.expiry_round, 10_000);
}

#[test]
fn identity_registry_rejects_unauthorized_update() {
    let mut sc = DrwaIdentityRegistry::init(owner(), governance());

    let refused = sc.register_identity(
        &intruder(),
        issuer(),
        buf("Blocked"),
        buf("US"),
        buf("REG-X"),
        buf("SPV"),
        0,
    );
    assert_eq!(refused, Err(ContractError::CallerNotAuthorized));
    assert_eq!(refused.unwrap_err().message(),
        "caller not authorized".as_bytes());
    assert!(sc.identity(&issuer()).is_none());
}

#[test]
fn identity_registry_requires_pending_governance_acceptance() {
    let mut sc = DrwaIdentityRegistry::init(owner(), intruder());

    sc.set_governance(&owner(), governance()).unwrap();
    assert_eq!(sc.pending_governance(), Some(governance()));

    assert_eq!(sc.governance(), intruder());

    sc.accept_governance(&governance()).unwrap();

    assert_eq!(sc.governance(), governance());
}

#[test]
fn identity_registration_defaults_and_saturating_expiry() {
    let mut sc = DrwaIdentityRegistry::init(owner(), governance());
    sc.register_identity(&owner(), issuer(), buf("N"), buf("SG"), buf("R"), buf("SPV"), 5)
        .unwrap();
    let record = sc.identity(&issuer()).unwrap();
    assert_eq!(record.kyc_status, buf("pending"));
    assert_eq!(record.aml_status, buf("pending"));
    assert!(record.investor_class.is_empty());
    assert_eq!(record.expiry_round, 10_005);

    sc.register_identity(&owner(), intruder(), buf("N"), buf("SG"), buf("R"), buf("SPV"), u64::MAX - 3)
        .unwrap();
    assert_eq!(sc.identity(&intruder()).unwrap().expiry_round, u64::MAX);
}

#[test]
fn identity_update_of_unregistered_account_is_refused() {
    let mut sc = DrwaIdentityRegistry::init(owner(), governance());
    assert_eq!(
        sc.update_compliance_status(&governance(), issuer(), buf("a"), buf("a"), buf("c"), 1),
        Err(ContractError::IdentityStorageDecode { subject: issuer() })
    );
    assert!(sc.identity(&issuer()).is_none());
    assert_eq!(
        sc.update_compliance_status(&intruder(), issuer(), buf("a"), buf("a"), buf("c"), 1),
        Err(ContractError::CallerNotAuthorized)
    );
}

#[test]
fn identity_registry_logs_governance_events() {
    let mut sc = DrwaIdentityRegistry::init(owner(), governance());
    sc.set_governance(&owner(), issuer()).unwrap();
    sc.accept_governance(&issuer()).unwrap();
    assert_eq!(sc.events().len(), 2);
    assert!(matches!(&sc.events()[1], DrwaEvent::GovernanceAccepted { governance: g } if *g == issuer()));
}

#[test]
fn identity_decode_failure_names_the_storage_key() {
    let mut sc = DrwaIdentityRegistry::init(owner(), governance());
    let refused = sc
        .update_compliance_status(&governance(), issuer(), buf("a"), buf("a"), buf("c"), 1)
        .unwrap_err();
    let mut expected = b"storage decode error (key: identity".to_vec();
    expected.extend_from_slice(&issuer().bytes);
    expected.extend_from_slice(b"): input too short");
    assert_eq!(refused.message(), expected);
}
