use drwa_contracts::events::DrwaEvent;
use drwa_contracts::asset_manager::DrwaAssetManager;
use drwa_contracts::bytes::Address;
use drwa_contracts::error::ContractError;
use drwa_contracts::sync::{DrwaCallerDomain, DrwaSyncOperationType};

fn address(name: &str) -> Address {
    let mut bytes = [b'_'; 32];
    bytes[..name.len()].copy_from_slice(name.as_bytes());
    Address::new(bytes)
}

fn owner() -> Address {
    address("owner")
}

fn governance() -> Address {
    address("governance")
}

fn holder() -> Address {
    address("holder")
}

fn buf(s: &str) -> Vec<u8> {
    s.as_bytes().to_vec()
}

#[test]
fn asset_manager_whitebox_flow() {
    let mut sc = DrwaAssetManager::init(owner());

    sc.register_asset(
        &owner(),
        buf("HOTEL-001"),
        buf("ESDT"),
        buf("Hospitality"),
        buf("policy-hotel-1"),
    )
    .unwrap();

    let envelope = sc
        .sync_holder_compliance(
            &owner(),
            buf("HOTEL-001"),
            holder(),
            buf("approved"),
            buf("approved"),
            buf("accredited"),
            buf("SG"),
            250,
            false,
            false,
            true,
        )
        .unwrap();

    assert!(envelope.caller_domain == DrwaCallerDomain::AssetManager);
    assert_eq!(envelope.operations.len(), 1);

    let operation = &envelope.operations[0];
    assert!(operation.operation_type == DrwaSyncOperationType::HolderMirror);
    assert_eq!(operation.version, 1);
    assert!(!envelope.payload_hash.is_empty());

    let token_id = buf("HOTEL-001");
    let asset = sc.asset(&token_id).unwrap();
    assert!(asset.regulated);
    assert_eq!(asset.asset_class, buf("Hospitality"));

    let mirror = sc.holder_mirror(&token_id, &holder()).unwrap();
    assert_eq!(mirror.holder_policy_version, 1);
    assert_eq!(mirror.kyc_status, buf("approved"));
    assert_eq!(mirror.investor_class, buf("accredited"));
    assert_eq!(sc.holder_policy_version(&token_id, &holder()), 1);
}

#[test]
fn asset_manager_rejects_non_owner_and_increments_holder_version() {
    let mut sc = DrwaAssetManager::init(owner());

    sc.register_asset(
        &owner(),
        buf("HOTEL-001"),
        buf("ESDT"),
        buf("Hospitality"),
        buf("policy-hotel-1"),
    )
    .unwrap();

    for version in [1u64, 2u64] {
        let envelope = sc
            .sync_holder_compliance(
                &owner(),
                buf("HOTEL-001"),
                holder(),
                buf("approved"),
                buf("approved"),
                buf("accredited"),
                buf("SG"),
                250 + version,
                version == 2,
                false,
                true,
            )
            .unwrap();
        assert_eq!(envelope.operations[0].version, version);
    }

    let token_id = buf("HOTEL-001");
    let mirror = sc.holder_mirror(&token_id, &holder()).unwrap();
    assert_eq!(mirror.holder_policy_version, 2);
    assert!(mirror.transfer_locked);
    assert_eq!(mirror.expiry_round, 252);
}

#[test]
fn asset_manager_allows_governance_to_manage_assets_and_holders() {
    let mut sc = DrwaAssetManager::init(owner());

    sc.set_governance(&owner(), governance()).unwrap();
    sc.accept_governance(&governance()).unwrap();

    sc.register_asset(
        &governance(),
        buf("HOTEL-002"),
        buf("ESDT"),
        buf("Hospitality"),
        buf("policy-hotel-2"),
    )
    .unwrap();

    let envelope = sc
        .sync_holder_compliance(
            &governance(),
            buf("HOTEL-002"),
            holder(),
            buf("approved"),
            buf("approved"),
            buf("accredited"),
            buf("SG"),
            500,
            false,
            false,
            true,
        )
        .unwrap();
    assert_eq!(envelope.operations[0].version, 1);
}

#[test]
fn asset_manager_requires_pending_governance_acceptance() {
    let mut sc = DrwaAssetManager::init(owner());

    sc.set_governance(&owner(), governance()).unwrap();
    assert_eq!(sc.pending_governance(), Some(governance()));

    assert!(sc.governance().is_none());
}

#[test]
fn asset_manager_refuses_strangers_and_leaves_state_unchanged() {
    let mut sc = DrwaAssetManager::init(owner());
    let intruder = address("intruder");

    assert_eq!(
        sc.register_asset(&intruder, buf("HOTEL-003"), buf("ESDT"), buf("X"), buf("p")),
        Err(ContractError::CallerNotAuthorized)
    );
    assert!(sc.asset(&buf("HOTEL-003")).is_none());

    let refused = sc.sync_holder_compliance(
        &intruder,
        buf("HOTEL-003"),
        holder(),
        buf("approved"),
        buf("approved"),
        buf("accredited"),
        buf("SG"),
        10,
        false,
        false,
        false,
    );
    assert_eq!(refused.unwrap_err(), ContractError::CallerNotAuthorized);
    assert_eq!(sc.holder_policy_version(&buf("HOTEL-003"), &holder()), 0);

    assert_eq!(
        sc.set_governance(&intruder, governance()),
        Err(ContractError::OnlyOwner)
    );
    assert_eq!(ContractError::OnlyOwner.message(),
        "Endpoint can only be called by owner".as_bytes());
    assert_eq!(
        sc.set_governance(&owner(), Address::zero()),
        Err(ContractError::GovernanceZero)
    );
    assert_eq!(sc.accept_governance(&governance()), Err(ContractError::PendingGovernanceNotSet));
    sc.set_governance(&owner(), governance()).unwrap();
    assert_eq!(
        sc.accept_governance(&intruder),
        Err(ContractError::CallerNotPendingGovernance)
    );
    assert_eq!(sc.pending_governance(), Some(governance()));
    assert!(sc.governance().is_none());
    assert_eq!(
        sc.register_asset(&governance(), buf("HOTEL-003"), buf("ESDT"), buf("X"), buf("p")),
        Err(ContractError::CallerNotAuthorized)
    );
}

#[test]
fn holder_sync_touches_only_its_own_holder() {
    let mut sc = DrwaAssetManager::init(owner());
    let other = address("other");
    for round in [1u64, 2, 3] {
        sc.sync_holder_compliance(
            &owner(),
            buf("HOTEL-001"),
            holder(),
            buf("approved"),
            buf("approved"),
            buf("accredited"),
            buf("SG"),
            round,
            false,
            false,
            false,
        )
        .unwrap();
    }
    sc.sync_holder_compliance(
        &owner(),
        buf("HOTEL-001"),
        other,
        buf("pending"),
        buf("pending"),
        buf("retail"),
        buf("US"),
        7,
        true,
        true,
        false,
    )
    .unwrap();
    assert_eq!(sc.holder_policy_version(&buf("HOTEL-001"), &holder()), 3);
    assert_eq!(sc.holder_policy_version(&buf("HOTEL-001"), &other), 1);
    assert_eq!(sc.holder_policy_version(&buf("HOTEL-002"), &holder()), 0);
    assert_eq!(sc.holder_mirror(&buf("HOTEL-001"), &holder()).unwrap().expiry_round, 3);
    assert_eq!(sc.holder_mirror(&buf("HOTEL-001"), &other).unwrap().investor_class, buf("retail"));
}

#[test]
fn asset_manager_logs_events_of_successful_calls_only() {
    let mut sc = DrwaAssetManager::init(owner());
    let _ = sc.set_governance(&holder(), governance());
    sc.set_governance(&owner(), governance()).unwrap();
    sc.accept_governance(&governance()).unwrap();
    sc.register_asset(&governance(), buf("HOTEL-009"), buf("ESDT"), buf("X"), buf("policy-9"))
        .unwrap();
    sc.sync_holder_compliance(
        &governance(),
        buf("HOTEL-009"),
        holder(),
        buf("a"),
        buf("a"),
        buf("c"),
        buf("SG"),
        1,
        false,
        false,
        false,
    )
    .unwrap();
    let events = sc.events();
    assert_eq!(events.len(), 3);
    assert!(matches!(&events[0], DrwaEvent::GovernanceProposed { governance: g } if *g == governance()));
    assert!(matches!(&events[1], DrwaEvent::GovernanceAccepted { governance: g } if *g == governance()));
    assert!(matches!(
        &events[2],
        DrwaEvent::AssetRegistered { token_id, policy_id, regulated: true }
            if *token_id == buf("HOTEL-009") && *policy_id == buf("policy-9")
    ));
}
