use drwa_contracts::events::DrwaEvent;
use drwa_contracts::bytes::Address;
use drwa_contracts::error::ContractError;
use drwa_contracts::mrv::MrvRegistry;

fn address(name: &str) -> Address {
    let mut bytes = [b'_'; 32];
    bytes[..name.len()].copy_from_slice(name.as_bytes());
    Address::new(bytes)
}

fn buf(s: &str) -> Vec<u8> {
    s.as_bytes().to_vec()
}

fn anchor(sc: &mut MrvRegistry, caller: &Address, id: &str, season: &str, hash: &str) -> Result<(), ContractError> {
    sc.anchor_report(
        caller,
        buf(id),
        buf("tenant-1"),
        buf("farm-1"),
        buf(season),
        buf(hash),
        buf("sha256"),
        buf("jcs"),
        2,
        1_700_000_000,
    )
}

#[test]
fn mrv_anchor_reads_back_by_id_and_season() {
    let owner = address("owner");
    let mut sc = MrvRegistry::init(owner);
    anchor(&mut sc, &owner, "report-1", "2024", "h1").unwrap();
    let proof = sc.get_report_proof(&buf("report-1")).unwrap();
    assert_eq!(proof.report_hash, buf("h1"));
    assert_eq!(proof.methodology_version, 2);
    let by_season = sc
        .get_report_proof_by_season(&buf("tenant-1"), &buf("farm-1"), &buf("2024"))
        .unwrap();
    assert_eq!(by_season.report_id, buf("report-1"));
    assert!(sc.get_report_proof(&buf("report-2")).is_none());
    assert!(sc
        .get_report_proof_by_season(&buf("tenant-1"), &buf("farm-1"), &buf("2025"))
        .is_none());
}

#[test]
fn mrv_anchor_is_idempotent_and_refuses_conflicts() {
    let owner = address("owner");
    let mut sc = MrvRegistry::init(owner);
    anchor(&mut sc, &owner, "report-1", "2024", "h1").unwrap();
    anchor(&mut sc, &owner, "report-1", "2024", "h1").unwrap();
    assert_eq!(
        anchor(&mut sc, &owner, "report-1", "2024", "h2"),
        Err(ContractError::ConflictingReportProof)
    );
    assert_eq!(ContractError::ConflictingReportProof.message(),
        "conflicting report proof".as_bytes());
    assert_eq!(sc.get_report_proof(&buf("report-1")).unwrap().report_hash, buf("h1"));
}

#[test]
fn mrv_anchor_validates_inputs_and_caller() {
    let owner = address("owner");
    let mut sc = MrvRegistry::init(owner);
    assert_eq!(
        anchor(&mut sc, &address("stranger"), "report-1", "2024", "h1"),
        Err(ContractError::OnlyOwner)
    );
    assert_eq!(anchor(&mut sc, &owner, "", "2024", "h1"), Err(ContractError::EmptyReportId));
    assert_eq!(anchor(&mut sc, &owner, "r", "", "h1"), Err(ContractError::EmptyPublicSeasonId));
    assert_eq!(anchor(&mut sc, &owner, "r", "2024", ""), Err(ContractError::EmptyReportHash));
    assert_eq!(
        sc.anchor_report(&owner, buf("r"), buf(""), buf("f"), buf("s"), buf("h"), buf("a"), buf("c"), 0, 0),
        Err(ContractError::EmptyPublicTenantId)
    );
    assert_eq!(
        sc.anchor_report(&owner, buf("r"), buf("t"), buf(""), buf("s"), buf("h"), buf("a"), buf("c"), 0, 0),
        Err(ContractError::EmptyPublicFarmId)
    );
    assert_eq!(
        sc.anchor_report(&owner, buf("r"), buf("t"), buf("f"), buf("s"), buf("h"), buf(""), buf("c"), 0, 0),
        Err(ContractError::EmptyHashAlgo)
    );
    assert_eq!(
        sc.anchor_report(&owner, buf("r"), buf("t"), buf("f"), buf("s"), buf("h"), buf("a"), buf(""), 0, 0),
        Err(ContractError::EmptyCanonicalization)
    );
    assert!(sc.get_report_proof(&buf("r")).is_none());
}

#[test]
fn mrv_later_report_takes_over_season_index() {
    let owner = address("owner");
    let mut sc = MrvRegistry::init(owner);
    anchor(&mut sc, &owner, "report-1", "2024", "h1").unwrap();
    anchor(&mut sc, &owner, "report-2", "2024", "h2").unwrap();
    let by_season = sc
        .get_report_proof_by_season(&buf("tenant-1"), &buf("farm-1"), &buf("2024"))
        .unwrap();
    assert_eq!(by_season.report_id, buf("report-2"));
    assert_eq!(sc.get_report_proof(&buf("report-1")).unwrap().report_hash, buf("h1"));
}

#[test]
fn mrv_logs_first_anchor_only() {
    let owner = address("owner");
    let mut sc = MrvRegistry::init(owner);
    anchor(&mut sc, &owner, "report-1", "2024", "h1").unwrap();
    anchor(&mut sc, &owner, "report-1", "2024", "h1").unwrap();
    let events = sc.events();
    assert_eq!(events.len(), 1);
    assert!(matches!(&events[0], DrwaEvent::ReportAnchored { report_id, methodology_version: 2, .. } if *report_id == buf("report-1")));
}

#[test]
fn mrv_season_triples_do_not_collide() {
    let owner = address("owner");
    let mut sc = MrvRegistry::init(owner);
    sc.anchor_report(&owner, buf("r1"), buf("ab"), buf("c"), buf("s"), buf("h"), buf("a"), buf("c"), 0, 0)
        .unwrap();
    assert!(sc.get_report_proof_by_season(&buf("a"), &buf("bc"), &buf("s")).is_none());
    assert_eq!(
        sc.get_report_proof_by_season(&buf("ab"), &buf("c"), &buf("s")).unwrap().report_id,
        buf("r1")
    );
}
