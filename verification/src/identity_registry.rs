//! The identity registry: governance or owner registers legal identities of
//! accounts and keeps their compliance status up to date.
use vstd::prelude::*;
use vstd::string::StringSliceAdditionalSpecFns;

use crate::bytes::{address_view, append_text, is_zero_address, Address};
use crate::error::ContractError;
use crate::events::{events_view, log_event, DrwaEvent, DrwaEventView};
use crate::store::ByteMap;

verus! {

/// For how many rounds a fresh registration stays valid.
pub const DEFAULT_IDENTITY_VALIDITY_ROUNDS: u64 = 10000;

/// The legal identity and compliance status of an account.
#[derive(Clone, Debug)]
pub struct IdentityRecord {
    pub legal_name: Vec<u8>,
    pub jurisdiction_code: Vec<u8>,
    pub registration_number: Vec<u8>,
    pub entity_type: Vec<u8>,
    pub kyc_status: Vec<u8>,
    pub aml_status: Vec<u8>,
    pub investor_class: Vec<u8>,
    pub expiry_round: u64,
}

/// The content of an identity record.
pub struct IdentityRecordView {
    pub legal_name: Seq<u8>,
    pub jurisdiction_code: Seq<u8>,
    pub registration_number: Seq<u8>,
    pub entity_type: Seq<u8>,
    pub kyc_status: Seq<u8>,
    pub aml_status: Seq<u8>,
    pub investor_class: Seq<u8>,
    pub expiry_round: u64,
}

impl View for IdentityRecord {
    type V = IdentityRecordView;

    open spec fn view(&self) -> IdentityRecordView {
        IdentityRecordView {
            legal_name: self.legal_name@,
            jurisdiction_code: self.jurisdiction_code@,
            registration_number: self.registration_number@,
            entity_type: self.entity_type@,
            kyc_status: self.kyc_status@,
            aml_status: self.aml_status@,
            investor_class: self.investor_class@,
            expiry_round: self.expiry_round,
        }
    }
}

/// The round at which a registration made at `block_round` expires: the
/// validity period later, or the last round when that would overflow.
pub open spec fn registration_expiry(block_round: u64) -> u64 {
    if block_round + DEFAULT_IDENTITY_VALIDITY_ROUNDS > u64::MAX {
        u64::MAX
    } else {
        (block_round + DEFAULT_IDENTITY_VALIDITY_ROUNDS) as u64
    }
}

/// The state of an identity registry.
pub struct IdentityRegistryView {
    pub owner: Seq<u8>,
    pub governance: Seq<u8>,
    pub pending_governance: Option<Seq<u8>>,
    pub identities: Map<Seq<u8>, IdentityRecordView>,
    pub events: Seq<DrwaEventView>,
}

impl IdentityRegistryView {
    /// Whether the caller is the governance or the owner.
    pub open spec fn is_governance_or_owner(self, caller: Seq<u8>) -> bool {
        caller == self.governance || caller == self.owner
    }

    /// The owner proposes a new governance, which takes effect once accepted.
    pub open spec fn set_governance(self, caller: Seq<u8>, governance: Seq<u8>) -> Result<
        Self,
        ContractError,
    > {
        if caller != self.owner {
            Err(ContractError::OnlyOwner)
        } else if is_zero_address(governance) {
            Err(ContractError::GovernanceZero)
        } else {
            Ok(
                IdentityRegistryView {
                    pending_governance: Some(governance),
                    events: self.events.push(DrwaEventView::GovernanceProposed { governance }),
                    ..self
                },
            )
        }
    }

    /// The proposed governance accepts the role.
    pub open spec fn accept_governance(self, caller: Seq<u8>) -> Result<Self, ContractError> {
        match self.pending_governance {
            None => Err(ContractError::PendingGovernanceNotSet),
            Some(p) => if caller != p {
                Err(ContractError::CallerNotPendingGovernance)
            } else {
                Ok(
                    IdentityRegistryView {
                        governance: p,
                        pending_governance: None,
                        events: self.events.push(DrwaEventView::GovernanceAccepted { governance: p }),
                        ..self
                    },
                )
            },
        }
    }

    /// Governance or owner registers (or re-registers) an identity, with
    /// both statuses pending, no investor class, and the default validity.
    pub open spec fn register_identity(
        self,
        caller: Seq<u8>,
        subject: Seq<u8>,
        legal_name: Seq<u8>,
        jurisdiction_code: Seq<u8>,
        registration_number: Seq<u8>,
        entity_type: Seq<u8>,
        block_round: u64,
    ) -> Result<Self, ContractError> {
        if !self.is_governance_or_owner(caller) {
            Err(ContractError::CallerNotAuthorized)
        } else {
            Ok(
                IdentityRegistryView {
                    identities: self.identities.insert(
                        subject,
                        IdentityRecordView {
                            legal_name,
                            jurisdiction_code,
                            registration_number,
                            entity_type,
                            kyc_status: "pending".spec_bytes(),
                            aml_status: "pending".spec_bytes(),
                            investor_class: Seq::empty(),
                            expiry_round: registration_expiry(block_round),
                        },
                    ),
                    ..self
                },
            )
        }
    }

    /// Governance or owner replaces the compliance status of a registered
    /// identity; the legal fields stay as registered. Reading the record of
    /// an account that was never registered fails to decode.
    pub open spec fn update_compliance_status(
        self,
        caller: Seq<u8>,
        subject: Address,
        kyc_status: Seq<u8>,
        aml_status: Seq<u8>,
        investor_class: Seq<u8>,
        expiry_round: u64,
    ) -> Result<Self, ContractError> {
        if !self.is_governance_or_owner(caller) {
            Err(ContractError::CallerNotAuthorized)
        } else if !self.identities.contains_key(subject@) {
            Err(ContractError::IdentityStorageDecode { subject })
        } else {
            Ok(
                IdentityRegistryView {
                    identities: self.identities.insert(
                        subject@,
                        IdentityRecordView {
                            kyc_status,
                            aml_status,
                            investor_class,
                            expiry_round,
                            ..self.identities[subject@]
                        },
                    ),
                    ..self
                },
            )
        }
    }
}

/// An identity registry contract.
pub struct DrwaIdentityRegistry {
    owner: Address,
    governance: Address,
    pending_governance: Option<Address>,
    identities: ByteMap<IdentityRecord>,
    events: Vec<DrwaEvent>,
}

impl View for DrwaIdentityRegistry {
    type V = IdentityRegistryView;

    closed spec fn view(&self) -> IdentityRegistryView {
        IdentityRegistryView {
            owner: self.owner@,
            governance: self.governance@,
            pending_governance: address_view(self.pending_governance),
            identities: self.identities@.map_values(|r: IdentityRecord| r@),
            events: events_view(self.events@),
        }
    }
}

impl DrwaIdentityRegistry {
    fn emit(&mut self, event: DrwaEvent)
        ensures
            final(self)@ == (IdentityRegistryView { events: old(self)@.events.push(event@), ..old(self)@ }),
    {
        proof {
            use_type_invariant(&*self);
        }
        let mut events: Vec<DrwaEvent> = Vec::new();
        std::mem::swap(&mut events, &mut self.events);
        log_event(&mut events, event);
        self.events = events;
    }

    /// The events logged so far, oldest first.
    pub fn events(&self) -> (r: &Vec<DrwaEvent>)
        ensures
            events_view(r@) == self@.events,
    {
        &self.events
    }

    #[verifier::type_invariant]
    spec fn storage_wf(self) -> bool {
        self.identities.wf()
    }

    /// Deploys the contract with its first governance; the deployer becomes
    /// its owner.
    pub fn init(owner: Address, governance: Address) -> (c: Self)
        ensures
            c@ == (IdentityRegistryView {
                owner: owner@,
                governance: governance@,
                pending_governance: None,
                identities: Map::empty(),
                events: Seq::empty(),
            }),
    {
        let c = DrwaIdentityRegistry {
            owner,
            governance,
            pending_governance: None,
            identities: ByteMap::new(),
            events: Vec::new(),
        };
        assert(c@.identities =~= Map::empty());
        assert(c@.events =~= Seq::empty());
        c
    }

    /// The owner of the contract.
    pub fn owner(&self) -> (a: Address)
        ensures
            a@ == self@.owner,
    {
        self.owner
    }

    /// The governance.
    pub fn governance(&self) -> (a: Address)
        ensures
            a@ == self@.governance,
    {
        self.governance
    }

    /// The proposed governance awaiting acceptance, if any.
    pub fn pending_governance(&self) -> (a: Option<Address>)
        ensures
            address_view(a) == self@.pending_governance,
    {
        self.pending_governance
    }

    /// The identity registered for an account, if any.
    pub fn identity(&self, subject: &Address) -> (r: Option<&IdentityRecord>)
        ensures
            match r {
                Some(rec) => self@.identities.contains_key(subject@) && rec@
                    == self@.identities[subject@],
                None => !self@.identities.contains_key(subject@),
            },
    {
        proof {
            use_type_invariant(self);
        }
        self.identities.get(&subject.to_vec())
    }

    /// Passes when the caller is the governance or the owner.
    pub fn require_governance_or_owner(&self, caller: &Address) -> (r: Result<(), ContractError>)
        ensures
            r is Ok <==> self@.is_governance_or_owner(caller@),
            r is Err ==> r == Err::<(), ContractError>(ContractError::CallerNotAuthorized),
    {
        if caller.same(&self.governance) || caller.same(&self.owner) {
            Ok(())
        } else {
            Err(ContractError::CallerNotAuthorized)
        }
    }

    /// The owner proposes a new governance address.
    pub fn set_governance(&mut self, caller: &Address, governance: Address) -> (r: Result<
        (),
        ContractError,
    >)
        ensures
            match old(self)@.set_governance(caller@, governance@) {
                Ok(s) => r is Ok && final(self)@ == s,
                Err(e) => r == Err::<(), ContractError>(e) && final(self)@ == old(self)@,
            },
    {
        proof {
            use_type_invariant(&*self);
        }
        if !caller.same(&self.owner) {
            return Err(ContractError::OnlyOwner);
        }
        if governance.is_zero() {
            return Err(ContractError::GovernanceZero);
        }
        self.pending_governance = Some(governance);
        self.emit(DrwaEvent::GovernanceProposed { governance });
        Ok(())
    }

    /// The proposed governance accepts the role.
    pub fn accept_governance(&mut self, caller: &Address) -> (r: Result<(), ContractError>)
        ensures
            match old(self)@.accept_governance(caller@) {
                Ok(s) => r is Ok && final(self)@ == s,
                Err(e) => r == Err::<(), ContractError>(e) && final(self)@ == old(self)@,
            },
    {
        proof {
            use_type_invariant(&*self);
        }
        match self.pending_governance {
            None => Err(ContractError::PendingGovernanceNotSet),
            Some(pending) => {
                if !caller.same(&pending) {
                    return Err(ContractError::CallerNotPendingGovernance);
                }
                self.governance = pending;
                self.pending_governance = None;
                self.emit(DrwaEvent::GovernanceAccepted { governance: pending });
                Ok(())
            },
        }
    }

    /// Registers the identity of an account at the given block round.
    pub fn register_identity(
        &mut self,
        caller: &Address,
        subject: Address,
        legal_name: Vec<u8>,
        jurisdiction_code: Vec<u8>,
        registration_number: Vec<u8>,
        entity_type: Vec<u8>,
        block_round: u64,
    ) -> (r: Result<(), ContractError>)
        ensures
            match old(self)@.register_identity(
                caller@,
                subject@,
                legal_name@,
                jurisdiction_code@,
                registration_number@,
                entity_type@,
                block_round,
            ) {
                Ok(s) => r is Ok && final(self)@ == s,
                Err(e) => r == Err::<(), ContractError>(e) && final(self)@ == old(self)@,
            },
    {
        proof {
            use_type_invariant(&*self);
        }
        self.require_governance_or_owner(caller)?;
        let mut kyc_status: Vec<u8> = Vec::new();
        append_text(&mut kyc_status, "pending");
        let mut aml_status: Vec<u8> = Vec::new();
        append_text(&mut aml_status, "pending");
        let record = IdentityRecord {
            legal_name,
            jurisdiction_code,
            registration_number,
            entity_type,
            kyc_status,
            aml_status,
            investor_class: Vec::new(),
            expiry_round: block_round.saturating_add(DEFAULT_IDENTITY_VALIDITY_ROUNDS),
        };
        let ghost rv = record@;
        assert(rv.kyc_status =~= "pending".spec_bytes());
        assert(rv.investor_class =~= Seq::<u8>::empty());
        let mut identities = ByteMap::new();
        std::mem::swap(&mut identities, &mut self.identities);
        identities.insert(subject.to_vec(), record);
        self.identities = identities;
        assert(self@.identities =~= old(self)@.identities.insert(subject@, rv));
        Ok(())
    }

    /// Replaces the compliance status of a registered account.
    pub fn update_compliance_status(
        &mut self,
        caller: &Address,
        subject: Address,
        kyc_status: Vec<u8>,
        aml_status: Vec<u8>,
        investor_class: Vec<u8>,
        expiry_round: u64,
    ) -> (r: Result<(), ContractError>)
        ensures
            match old(self)@.update_compliance_status(
                caller@,
                subject,
                kyc_status@,
                aml_status@,
                investor_class@,
                expiry_round,
            ) {
                Ok(s) => r is Ok && final(self)@ == s,
                Err(e) => r == Err::<(), ContractError>(e) && final(self)@ == old(self)@,
            },
    {
        proof {
            use_type_invariant(&*self);
        }
        self.require_governance_or_owner(caller)?;
        let key = subject.to_vec();
        let existing = match self.identities.get(&key) {
            Some(rec) => rec,
            None => {
                return Err(ContractError::IdentityStorageDecode { subject });
            },
        };
        let record = IdentityRecord {
            legal_name: existing.legal_name.clone(),
            jurisdiction_code: existing.jurisdiction_code.clone(),
            registration_number: existing.registration_number.clone(),
            entity_type: existing.entity_type.clone(),
            kyc_status,
            aml_status,
            investor_class,
            expiry_round,
        };
        let ghost rv = record@;
        let mut identities = ByteMap::new();
        std::mem::swap(&mut identities, &mut self.identities);
        identities.insert(key, record);
        self.identities = identities;
        assert(self@.identities =~= old(self)@.identities.insert(subject@, rv));
        Ok(())
    }
}

} // verus!
