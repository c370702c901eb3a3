//! The attestation registry: a single auditor records, per token and subject,
//! whether the evidence it examined was approved and in which round.
use vstd::prelude::*;

use crate::asset_manager::{holder_key, holder_storage_key};
use crate::bytes::{address_view, is_zero_address, Address};
use crate::error::ContractError;
use crate::events::{events_view, log_event, DrwaEvent, DrwaEventView};
use crate::store::ByteMap;

verus! {

/// An auditor's attestation about a subject of a token.
#[derive(Clone, Debug)]
pub struct AttestationRecord {
    pub token_id: Vec<u8>,
    pub subject: Address,
    pub attestation_type: Vec<u8>,
    pub evidence_hash: Vec<u8>,
    pub approved: bool,
    pub attested_round: u64,
}

/// The content of an attestation record.
pub struct AttestationRecordView {
    pub token_id: Seq<u8>,
    pub subject: Seq<u8>,
    pub attestation_type: Seq<u8>,
    pub evidence_hash: Seq<u8>,
    pub approved: bool,
    pub attested_round: u64,
}

impl View for AttestationRecord {
    type V = AttestationRecordView;

    open spec fn view(&self) -> AttestationRecordView {
        AttestationRecordView {
            token_id: self.token_id@,
            subject: self.subject@,
            attestation_type: self.attestation_type@,
            evidence_hash: self.evidence_hash@,
            approved: self.approved,
            attested_round: self.attested_round,
        }
    }
}

/// The state of an attestation registry.
pub struct AttestationView {
    pub owner: Seq<u8>,
    pub auditor: Seq<u8>,
    pub pending_auditor: Option<Seq<u8>>,
    pub attestations: Map<Seq<u8>, AttestationRecordView>,
    pub events: Seq<DrwaEventView>,
}

impl AttestationView {
    /// The owner proposes a new auditor, who takes over once accepting.
    pub open spec fn set_auditor(self, caller: Seq<u8>, auditor: Seq<u8>) -> Result<
        Self,
        ContractError,
    > {
        if caller != self.owner {
            Err(ContractError::OnlyOwner)
        } else if is_zero_address(auditor) {
            Err(ContractError::AuditorZero)
        } else {
            Ok(
                AttestationView {
                    pending_auditor: Some(auditor),
                    events: self.events.push(DrwaEventView::AuditorProposed { auditor }),
                    ..self
                },
            )
        }
    }

    /// The proposed auditor accepts the role.
    pub open spec fn accept_auditor(self, caller: Seq<u8>) -> Result<Self, ContractError> {
        match self.pending_auditor {
            None => Err(ContractError::PendingAuditorNotSet),
            Some(p) => if caller != p {
                Err(ContractError::CallerNotPendingAuditor)
            } else {
                Ok(
                    AttestationView {
                        auditor: p,
                        pending_auditor: None,
                        events: self.events.push(DrwaEventView::AuditorAccepted { auditor: p }),
                        ..self
                    },
                )
            },
        }
    }

    /// The auditor records (or replaces) its attestation about a subject of a
    /// token, stamped with the current round.
    pub open spec fn record_attestation(
        self,
        caller: Seq<u8>,
        token_id: Seq<u8>,
        subject: Seq<u8>,
        attestation_type: Seq<u8>,
        evidence_hash: Seq<u8>,
        approved: bool,
        block_round: u64,
    ) -> Result<Self, ContractError> {
        if caller != self.auditor {
            Err(ContractError::CallerNotAuditor)
        } else {
            Ok(
                AttestationView {
                    attestations: self.attestations.insert(
                        holder_key(token_id, subject),
                        AttestationRecordView {
                            token_id,
                            subject,
                            attestation_type,
                            evidence_hash,
                            approved,
                            attested_round: block_round,
                        },
                    ),
                    ..self
                },
            )
        }
    }
}

/// An attestation registry contract.
pub struct DrwaAttestation {
    owner: Address,
    auditor: Address,
    pending_auditor: Option<Address>,
    attestations: ByteMap<AttestationRecord>,
    events: Vec<DrwaEvent>,
}

impl View for DrwaAttestation {
    type V = AttestationView;

    closed spec fn view(&self) -> AttestationView {
        AttestationView {
            owner: self.owner@,
            auditor: self.auditor@,
            pending_auditor: address_view(self.pending_auditor),
            attestations: self.attestations@.map_values(|r: AttestationRecord| r@),
            events: events_view(self.events@),
        }
    }
}

impl DrwaAttestation {
    fn emit(&mut self, event: DrwaEvent)
        ensures
            final(self)@ == (AttestationView { events: old(self)@.events.push(event@), ..old(self)@ }),
    {
        proof {
            use_type_invariant(&*self);
        }
        let mut events: Vec<DrwaEvent> = Vec::new();
        std::mem::swap(&mut events, &mut self.events);
        log_event(&mut events, event);
        self.events = events;
    }

    /// The events logged so far, oldest first.
    pub fn events(&self) -> (r: &Vec<DrwaEvent>)
        ensures
            events_view(r@) == self@.events,
    {
        &self.events
    }

    #[verifier::type_invariant]
    spec fn storage_wf(self) -> bool {
        self.attestations.wf()
    }

    /// Deploys the contract with its first auditor; the deployer becomes its
    /// owner.
    pub fn init(owner: Address, auditor: Address) -> (c: Self)
        ensures
            c@ == (AttestationView {
                owner: owner@,
                auditor: auditor@,
                pending_auditor: None,
                attestations: Map::empty(),
                events: Seq::empty(),
            }),
    {
        let c = DrwaAttestation {
            owner,
            auditor,
            pending_auditor: None,
            attestations: ByteMap::new(),
            events: Vec::new(),
        };
        assert(c@.attestations =~= Map::empty());
        assert(c@.events =~= Seq::empty());
        c
    }

    /// The owner of the contract.
    pub fn owner(&self) -> (a: Address)
        ensures
            a@ == self@.owner,
    {
        self.owner
    }

    /// The auditor.
    pub fn auditor(&self) -> (a: Address)
        ensures
            a@ == self@.auditor,
    {
        self.auditor
    }

    /// The proposed auditor awaiting acceptance, if any.
    pub fn pending_auditor(&self) -> (a: Option<Address>)
        ensures
            address_view(a) == self@.pending_auditor,
    {
        self.pending_auditor
    }

    /// The attestation about a subject of a token, if one was recorded.
    pub fn attestation(&self, token_id: &Vec<u8>, subject: &Address) -> (r: Option<
        &AttestationRecord,
    >)
        ensures
            match r {
                Some(rec) => self@.attestations.contains_key(holder_key(token_id@, subject@))
                    && rec@ == self@.attestations[holder_key(token_id@, subject@)],
                None => !self@.attestations.contains_key(holder_key(token_id@, subject@)),
            },
    {
        proof {
            use_type_invariant(self);
        }
        self.attestations.get(&holder_storage_key(token_id, subject))
    }

    /// The owner proposes a new auditor.
    pub fn set_auditor(&mut self, caller: &Address, auditor: Address) -> (r: Result<
        (),
        ContractError,
    >)
        ensures
            match old(self)@.set_auditor(caller@, auditor@) {
                Ok(s) => r is Ok && final(self)@ == s,
                Err(e) => r == Err::<(), ContractError>(e) && final(self)@ == old(self)@,
            },
    {
        proof {
            use_type_invariant(&*self);
        }
        if !caller.same(&self.owner) {
            return Err(ContractError::OnlyOwner);
        }
        if auditor.is_zero() {
            return Err(ContractError::AuditorZero);
        }
        self.pending_auditor = Some(auditor);
        self.emit(DrwaEvent::AuditorProposed { auditor });
        Ok(())
    }

    /// The proposed auditor accepts the role.
    pub fn accept_auditor(&mut self, caller: &Address) -> (r: Result<(), ContractError>)
        ensures
            match old(self)@.accept_auditor(caller@) {
                Ok(s) => r is Ok && final(self)@ == s,
                Err(e) => r == Err::<(), ContractError>(e) && final(self)@ == old(self)@,
            },
    {
        proof {
            use_type_invariant(&*self);
        }
        match self.pending_auditor {
            None => Err(ContractError::PendingAuditorNotSet),
            Some(pending) => {
                if !caller.same(&pending) {
                    return Err(ContractError::CallerNotPendingAuditor);
                }
                self.auditor = pending;
                self.pending_auditor = None;
                self.emit(DrwaEvent::AuditorAccepted { auditor: pending });
                Ok(())
            },
        }
    }

    /// The auditor records its attestation about a subject of a token at the
    /// given block round.
    pub fn record_attestation(
        &mut self,
        caller: &Address,
        token_id: Vec<u8>,
        subject: Address,
        attestation_type: Vec<u8>,
        evidence_hash: Vec<u8>,
        approved: bool,
        block_round: u64,
    ) -> (r: Result<(), ContractError>)
        ensures
            match old(self)@.record_attestation(
                caller@,
                token_id@,
                subject@,
                attestation_type@,
                evidence_hash@,
                approved,
                block_round,
            ) {
                Ok(s) => r is Ok && final(self)@ == s,
                Err(e) => r == Err::<(), ContractError>(e) && final(self)@ == old(self)@,
            },
    {
        proof {
            use_type_invariant(&*self);
        }
        if !caller.same(&self.auditor) {
            return Err(ContractError::CallerNotAuditor);
        }
        let key = holder_storage_key(&token_id, &subject);
        let record = AttestationRecord {
            token_id,
            subject,
            attestation_type,
            evidence_hash,
            approved,
            attested_round: block_round,
        };
        let ghost rv = record@;
        let mut attestations = ByteMap::new();
        std::mem::swap(&mut attestations, &mut self.attestations);
        attestations.insert(key, record);
        self.attestations = attestations;
        assert(self@.attestations =~= old(self)@.attestations.insert(key@, rv));
        Ok(())
    }
}

} // verus!
