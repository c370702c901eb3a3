//! The MRV registry: the owner anchors the proof of each measurement report
//! once, and anyone can look a proof up by report id or by season.
use vstd::prelude::*;

use crate::bytes::{bytes_eq, len_prefixed, push_len_prefixed, Address};
use crate::error::ContractError;
use crate::events::{events_view, log_event, DrwaEvent, DrwaEventView};
use crate::store::ByteMap;

verus! {

/// The anchored proof of a measurement report.
#[derive(Clone, Debug)]
pub struct MrvReportProof {
    pub report_id: Vec<u8>,
    pub public_tenant_id: Vec<u8>,
    pub public_farm_id: Vec<u8>,
    pub public_season_id: Vec<u8>,
    pub report_hash: Vec<u8>,
    pub hash_algo: Vec<u8>,
    pub canonicalization: Vec<u8>,
    pub methodology_version: u64,
    pub anchored_at: u64,
}

/// The content of a report proof.
pub struct MrvReportProofView {
    pub report_id: Seq<u8>,
    pub public_tenant_id: Seq<u8>,
    pub public_farm_id: Seq<u8>,
    pub public_season_id: Seq<u8>,
    pub report_hash: Seq<u8>,
    pub hash_algo: Seq<u8>,
    pub canonicalization: Seq<u8>,
    pub methodology_version: u64,
    pub anchored_at: u64,
}

impl View for MrvReportProof {
    type V = MrvReportProofView;

    open spec fn view(&self) -> MrvReportProofView {
        MrvReportProofView {
            report_id: self.report_id@,
            public_tenant_id: self.public_tenant_id@,
            public_farm_id: self.public_farm_id@,
            public_season_id: self.public_season_id@,
            report_hash: self.report_hash@,
            hash_algo: self.hash_algo@,
            canonicalization: self.canonicalization@,
            methodology_version: self.methodology_version,
            anchored_at: self.anchored_at,
        }
    }
}

impl MrvReportProof {
    /// Whether both proofs hold the same content.
    pub fn same_content(&self, other: &MrvReportProof) -> (r: bool)
        ensures
            r == (self@ == other@),
    {
        bytes_eq(&self.report_id, &other.report_id) && bytes_eq(
            &self.public_tenant_id,
            &other.public_tenant_id,
        ) && bytes_eq(&self.public_farm_id, &other.public_farm_id) && bytes_eq(
            &self.public_season_id,
            &other.public_season_id,
        ) && bytes_eq(&self.report_hash, &other.report_hash) && bytes_eq(
            &self.hash_algo,
            &other.hash_algo,
        ) && bytes_eq(&self.canonicalization, &other.canonicalization)
            && self.methodology_version == other.methodology_version && self.anchored_at
            == other.anchored_at
    }
}

/// The storage key of a (tenant, farm, season) triple: the three ids, each
/// length-prefixed, as the framework composes tuple keys.
pub open spec fn season_key(tenant: Seq<u8>, farm: Seq<u8>, season: Seq<u8>) -> Seq<u8> {
    len_prefixed(tenant) + len_prefixed(farm) + len_prefixed(season)
}

/// Builds the storage key of a (tenant, farm, season) triple.
pub fn season_storage_key(tenant: &Vec<u8>, farm: &Vec<u8>, season: &Vec<u8>) -> (key: Vec<u8>)
    ensures
        key@ == season_key(tenant@, farm@, season@),
{
    let mut key: Vec<u8> = Vec::new();
    push_len_prefixed(&mut key, tenant);
    push_len_prefixed(&mut key, farm);
    push_len_prefixed(&mut key, season);
    assert(key@ =~= season_key(tenant@, farm@, season@));
    key
}

/// The state of an MRV registry.
pub struct MrvRegistryView {
    pub owner: Seq<u8>,
    pub report_proofs: Map<Seq<u8>, MrvReportProofView>,
    pub proof_by_season: Map<Seq<u8>, Seq<u8>>,
    pub events: Seq<DrwaEventView>,
}

impl MrvRegistryView {
    /// The owner anchors a report proof. A new report id is stored and
    /// indexed by its season; anchoring the same proof again changes nothing;
    /// a different proof under an anchored id is refused.
    pub open spec fn anchor_report(self, caller: Seq<u8>, report: MrvReportProofView) -> Result<
        Self,
        ContractError,
    > {
        if caller != self.owner {
            Err(ContractError::OnlyOwner)
        } else if report.report_id.len() == 0 {
            Err(ContractError::EmptyReportId)
        } else if report.public_tenant_id.len() == 0 {
            Err(ContractError::EmptyPublicTenantId)
        } else if report.public_farm_id.len() == 0 {
            Err(ContractError::EmptyPublicFarmId)
        } else if report.public_season_id.len() == 0 {
            Err(ContractError::EmptyPublicSeasonId)
        } else if report.report_hash.len() == 0 {
            Err(ContractError::EmptyReportHash)
        } else if report.hash_algo.len() == 0 {
            Err(ContractError::EmptyHashAlgo)
        } else if report.canonicalization.len() == 0 {
            Err(ContractError::EmptyCanonicalization)
        } else if !self.report_proofs.contains_key(report.report_id) {
            Ok(
                MrvRegistryView {
                    report_proofs: self.report_proofs.insert(report.report_id, report),
                    proof_by_season: self.proof_by_season.insert(
                        season_key(
                            report.public_tenant_id,
                            report.public_farm_id,
                            report.public_season_id,
                        ),
                        report.report_id,
                    ),
                    events: self.events.push(
                        DrwaEventView::ReportAnchored {
                            report_id: report.report_id,
                            public_tenant_id: report.public_tenant_id,
                            public_farm_id: report.public_farm_id,
                            public_season_id: report.public_season_id,
                            report_hash: report.report_hash,
                            hash_algo: report.hash_algo,
                            canonicalization: report.canonicalization,
                            methodology_version: report.methodology_version,
                            anchored_at: report.anchored_at,
                        },
                    ),
                    ..self
                },
            )
        } else if self.report_proofs[report.report_id] == report {
            Ok(self)
        } else {
            Err(ContractError::ConflictingReportProof)
        }
    }

    /// The proof anchored under a report id, if any.
    pub open spec fn report_proof(self, report_id: Seq<u8>) -> Option<MrvReportProofView> {
        if self.report_proofs.contains_key(report_id) {
            Some(self.report_proofs[report_id])
        } else {
            None
        }
    }

    /// The proof of the report last indexed under a season, if any.
    pub open spec fn report_proof_by_season(
        self,
        tenant: Seq<u8>,
        farm: Seq<u8>,
        season: Seq<u8>,
    ) -> Option<MrvReportProofView> {
        let key = season_key(tenant, farm, season);
        if self.proof_by_season.contains_key(key) {
            self.report_proof(self.proof_by_season[key])
        } else {
            None
        }
    }
}

/// An MRV registry contract.
pub struct MrvRegistry {
    owner: Address,
    report_proofs: ByteMap<MrvReportProof>,
    proof_by_season: ByteMap<Vec<u8>>,
    events: Vec<DrwaEvent>,
}

impl View for MrvRegistry {
    type V = MrvRegistryView;

    closed spec fn view(&self) -> MrvRegistryView {
        MrvRegistryView {
            owner: self.owner@,
            report_proofs: self.report_proofs@.map_values(|p: MrvReportProof| p@),
            proof_by_season: self.proof_by_season@.map_values(|id: Vec<u8>| id@),
            events: events_view(self.events@),
        }
    }
}

/// An option of a proof, by its content.
pub open spec fn proof_option_view(r: Option<&MrvReportProof>) -> Option<MrvReportProofView> {
    match r {
        Some(p) => Some(p@),
        None => None,
    }
}

impl MrvRegistry {
    fn emit(&mut self, event: DrwaEvent)
        ensures
            final(self)@ == (MrvRegistryView { events: old(self)@.events.push(event@), ..old(self)@ }),
    {
        proof {
            use_type_invariant(&*self);
        }
        let mut events: Vec<DrwaEvent> = Vec::new();
        std::mem::swap(&mut events, &mut self.events);
        log_event(&mut events, event);
        self.events = events;
    }

    /// The events logged so far, oldest first.
    pub fn events(&self) -> (r: &Vec<DrwaEvent>)
        ensures
            events_view(r@) == self@.events,
    {
        &self.events
    }

    #[verifier::type_invariant]
    spec fn storage_wf(self) -> bool {
        &&& self.report_proofs.wf()
        &&& self.proof_by_season.wf()
    }

    /// Deploys the contract; the deployer becomes its owner.
    pub fn init(owner: Address) -> (c: Self)
        ensures
            c@ == (MrvRegistryView {
                owner: owner@,
                report_proofs: Map::empty(),
                proof_by_season: Map::empty(),
                events: Seq::empty(),
            }),
    {
        let c = MrvRegistry {
            owner,
            report_proofs: ByteMap::new(),
            proof_by_season: ByteMap::new(),
            events: Vec::new(),
        };
        assert(c@.report_proofs =~= Map::empty());
        assert(c@.proof_by_season =~= Map::empty());
        assert(c@.events =~= Seq::empty());
        c
    }

    /// The owner of the contract.
    pub fn owner(&self) -> (a: Address)
        ensures
            a@ == self@.owner,
    {
        self.owner
    }

    /// Anchors the proof of a measurement report.
    pub fn anchor_report(
        &mut self,
        caller: &Address,
        report_id: Vec<u8>,
        public_tenant_id: Vec<u8>,
        public_farm_id: Vec<u8>,
        public_season_id: Vec<u8>,
        report_hash: Vec<u8>,
        hash_algo: Vec<u8>,
        canonicalization: Vec<u8>,
        methodology_version: u64,
        anchored_at: u64,
    ) -> (r: Result<(), ContractError>)
        ensures
            match old(self)@.anchor_report(
                caller@,
                MrvReportProofView {
                    report_id: report_id@,
                    public_tenant_id: public_tenant_id@,
                    public_farm_id: public_farm_id@,
                    public_season_id: public_season_id@,
                    report_hash: report_hash@,
                    hash_algo: hash_algo@,
                    canonicalization: canonicalization@,
                    methodology_version,
                    anchored_at,
                },
            ) {
                Ok(s) => r is Ok && final(self)@ == s,
                Err(e) => r == Err::<(), ContractError>(e) && final(self)@ == old(self)@,
            },
    {
        proof {
            use_type_invariant(&*self);
        }
        if !caller.same(&self.owner) {
            return Err(ContractError::OnlyOwner);
        }
        if report_id.len() == 0 {
            return Err(ContractError::EmptyReportId);
        }
        if public_tenant_id.len() == 0 {
            return Err(ContractError::EmptyPublicTenantId);
        }
        if public_farm_id.len() == 0 {
            return Err(ContractError::EmptyPublicFarmId);
        }
        if public_season_id.len() == 0 {
            return Err(ContractError::EmptyPublicSeasonId);
        }
        if report_hash.len() == 0 {
            return Err(ContractError::EmptyReportHash);
        }
        if hash_algo.len() == 0 {
            return Err(ContractError::EmptyHashAlgo);
        }
        if canonicalization.len() == 0 {
            return Err(ContractError::EmptyCanonicalization);
        }
        let season = season_storage_key(&public_tenant_id, &public_farm_id, &public_season_id);
        let record = MrvReportProof {
            report_id,
            public_tenant_id,
            public_farm_id,
            public_season_id,
            report_hash,
            hash_algo,
            canonicalization,
            methodology_version,
            anchored_at,
        };
        let ghost pv = record@;
        match self.report_proofs.get(&record.report_id) {
            Some(existing) => {
                if existing.same_content(&record) {
                    Ok(())
                } else {
                    Err(ContractError::ConflictingReportProof)
                }
            },
            None => {
                let event = DrwaEvent::ReportAnchored {
                    report_id: record.report_id.clone(),
                    public_tenant_id: record.public_tenant_id.clone(),
                    public_farm_id: record.public_farm_id.clone(),
                    public_season_id: record.public_season_id.clone(),
                    report_hash: record.report_hash.clone(),
                    hash_algo: record.hash_algo.clone(),
                    canonicalization: record.canonicalization.clone(),
                    methodology_version: record.methodology_version,
                    anchored_at: record.anchored_at,
                };
                let id_for_season = record.report_id.clone();
                let id_key = record.report_id.clone();
                let mut proofs = ByteMap::new();
                std::mem::swap(&mut proofs, &mut self.report_proofs);
                proofs.insert(id_key, record);
                self.report_proofs = proofs;
                let mut by_season = ByteMap::new();
                std::mem::swap(&mut by_season, &mut self.proof_by_season);
                by_season.insert(season, id_for_season);
                self.proof_by_season = by_season;
                assert(self@.report_proofs =~= old(self)@.report_proofs.insert(pv.report_id, pv));
                assert(self@.proof_by_season =~= old(self)@.proof_by_season.insert(
                    season_key(pv.public_tenant_id, pv.public_farm_id, pv.public_season_id),
                    pv.report_id,
                ));
                self.emit(event);
                Ok(())
            },
        }
    }

    /// The proof anchored under a report id, if any.
    pub fn get_report_proof(&self, report_id: &Vec<u8>) -> (r: Option<&MrvReportProof>)
        ensures
            proof_option_view(r) == self@.report_proof(report_id@),
    {
        proof {
            use_type_invariant(self);
        }
        self.report_proofs.get(report_id)
    }

    /// The proof of the report last indexed under a season, if any.
    pub fn get_report_proof_by_season(
        &self,
        public_tenant_id: &Vec<u8>,
        public_farm_id: &Vec<u8>,
        public_season_id: &Vec<u8>,
    ) -> (r: Option<&MrvReportProof>)
        ensures
            proof_option_view(r) == self@.report_proof_by_season(
                public_tenant_id@,
                public_farm_id@,
                public_season_id@,
            ),
    {
        proof {
            use_type_invariant(self);
        }
        let key = season_storage_key(public_tenant_id, public_farm_id, public_season_id);
        let report_id = match self.proof_by_season.get(&key) {
            Some(value) => value,
            None => {
                return None;
            },
        };
        self.get_report_proof(report_id)
    }
}

} // verus!
