//! The asset manager: registers regulated assets and keeps, per token and
//! holder, a versioned compliance mirror that it hands to the chain's
//! enforcement layer as a sealed sync envelope.
use vstd::prelude::*;

use crate::bytes::{
    address_view, append_bytes, append_u64_be, is_zero_address, len_prefixed, push_len_prefixed,
    u64_be, Address,
};
use crate::crypto::{keccak256, keccak256_digest};
use crate::error::ContractError;
use crate::events::{events_view, log_event, DrwaEvent, DrwaEventView};
use crate::store::ByteMap;
use crate::sync::{
    envelope_payload, serialize_sync_envelope_payload, DrwaCallerDomain, DrwaHolderMirror,
    DrwaSyncEnvelope, DrwaSyncOperation, DrwaSyncOperationType, HolderMirrorView,
};

verus! {

/// A registered asset.
#[derive(Clone, Debug)]
pub struct AssetRecord {
    pub token_id: Vec<u8>,
    pub carrier_type: Vec<u8>,
    pub asset_class: Vec<u8>,
    pub policy_id: Vec<u8>,
    pub regulated: bool,
}

/// The content of an asset record.
pub struct AssetRecordView {
    pub token_id: Seq<u8>,
    pub carrier_type: Seq<u8>,
    pub asset_class: Seq<u8>,
    pub policy_id: Seq<u8>,
    pub regulated: bool,
}

impl View for AssetRecord {
    type V = AssetRecordView;

    open spec fn view(&self) -> AssetRecordView {
        AssetRecordView {
            token_id: self.token_id@,
            carrier_type: self.carrier_type@,
            asset_class: self.asset_class@,
            policy_id: self.policy_id@,
            regulated: self.regulated,
        }
    }
}

/// The storage key of a (token, holder) pair: the length-prefixed token id,
/// then the 32 bytes of the address, as the framework composes keys.
pub open spec fn holder_key(token_id: Seq<u8>, holder: Seq<u8>) -> Seq<u8> {
    len_prefixed(token_id) + holder
}

/// Builds the storage key of a (token, holder) pair.
pub fn holder_storage_key(token_id: &Vec<u8>, holder: &Address) -> (key: Vec<u8>)
    ensures
        key@ == holder_key(token_id@, holder@),
{
    let mut key: Vec<u8> = Vec::new();
    push_len_prefixed(&mut key, token_id);
    append_bytes(&mut key, holder.bytes.as_slice());
    assert(key@ =~= holder_key(token_id@, holder@));
    key
}

/// The byte that stands for a flag.
pub open spec fn flag_byte(b: bool) -> u8 {
    if b {
        1u8
    } else {
        0u8
    }
}

/// The serialized holder mirror: version, the four length-prefixed status
/// fields, expiry round, then one byte per flag.
pub open spec fn holder_body(m: HolderMirrorView) -> Seq<u8> {
    u64_be(m.holder_policy_version) + len_prefixed(m.kyc_status) + len_prefixed(m.aml_status)
        + len_prefixed(m.investor_class) + len_prefixed(m.jurisdiction_code) + u64_be(
        m.expiry_round,
    ) + seq![
        flag_byte(m.transfer_locked),
        flag_byte(m.receive_locked),
        flag_byte(m.auditor_authorized),
    ]
}

/// The state of an asset manager.
pub struct AssetManagerView {
    pub owner: Seq<u8>,
    pub governance: Option<Seq<u8>>,
    pub pending_governance: Option<Seq<u8>>,
    pub assets: Map<Seq<u8>, AssetRecordView>,
    pub holder_mirrors: Map<Seq<u8>, HolderMirrorView>,
    pub holder_policy_versions: Map<Seq<u8>, u64>,
    pub events: Seq<DrwaEventView>,
}

impl AssetManagerView {
    /// Whether the caller is the accepted governance or the owner.
    pub open spec fn is_governance_or_owner(self, caller: Seq<u8>) -> bool {
        (self.governance matches Some(g) && g == caller) || caller == self.owner
    }

    /// The last version synced for a holder of a token; zero before the first.
    pub open spec fn holder_version(self, token_id: Seq<u8>, holder: Seq<u8>) -> u64 {
        let key = holder_key(token_id, holder);
        if self.holder_policy_versions.contains_key(key) {
            self.holder_policy_versions[key]
        } else {
            0
        }
    }

    /// The owner proposes a new governance, which takes effect once accepted.
    pub open spec fn set_governance(self, caller: Seq<u8>, governance: Seq<u8>) -> Result<
        Self,
        ContractError,
    > {
        if caller != self.owner {
            Err(ContractError::OnlyOwner)
        } else if is_zero_address(governance) {
            Err(ContractError::GovernanceZero)
        } else {
            Ok(
                AssetManagerView {
                    pending_governance: Some(governance),
                    events: self.events.push(DrwaEventView::GovernanceProposed { governance }),
                    ..self
                },
            )
        }
    }

    /// The proposed governance accepts the role.
    pub open spec fn accept_governance(self, caller: Seq<u8>) -> Result<Self, ContractError> {
        match self.pending_governance {
            None => Err(ContractError::PendingGovernanceNotSet),
            Some(p) => if caller != p {
                Err(ContractError::CallerNotPendingGovernance)
            } else {
                Ok(
                    AssetManagerView {
                        governance: Some(p),
                        pending_governance: None,
                        events: self.events.push(DrwaEventView::GovernanceAccepted { governance: p }),
                        ..self
                    },
                )
            },
        }
    }

    /// Governance or owner registers (or re-registers) a regulated asset.
    pub open spec fn register_asset(
        self,
        caller: Seq<u8>,
        token_id: Seq<u8>,
        carrier_type: Seq<u8>,
        asset_class: Seq<u8>,
        policy_id: Seq<u8>,
    ) -> Result<Self, ContractError> {
        if !self.is_governance_or_owner(caller) {
            Err(ContractError::CallerNotAuthorized)
        } else {
            Ok(
                AssetManagerView {
                    assets: self.assets.insert(
                        token_id,
                        AssetRecordView { token_id, carrier_type, asset_class, policy_id, regulated: true },
                    ),
                    events: self.events.push(
                        DrwaEventView::AssetRegistered { token_id, policy_id, regulated: true },
                    ),
                    ..self
                },
            )
        }
    }

    /// The mirror that the next sync of a holder stores.
    pub open spec fn next_mirror(
        self,
        token_id: Seq<u8>,
        holder: Seq<u8>,
        kyc_status: Seq<u8>,
        aml_status: Seq<u8>,
        investor_class: Seq<u8>,
        jurisdiction_code: Seq<u8>,
        expiry_round: u64,
        transfer_locked: bool,
        receive_locked: bool,
        auditor_authorized: bool,
    ) -> HolderMirrorView {
        HolderMirrorView {
            holder_policy_version: (self.holder_version(token_id, holder) + 1) as u64,
            kyc_status,
            aml_status,
            investor_class,
            jurisdiction_code,
            expiry_round,
            transfer_locked,
            receive_locked,
            auditor_authorized,
        }
    }

    /// Governance or owner records a holder's compliance state under the next
    /// version for that holder of that token.
    pub open spec fn sync_holder_compliance(
        self,
        caller: Seq<u8>,
        token_id: Seq<u8>,
        holder: Seq<u8>,
        kyc_status: Seq<u8>,
        aml_status: Seq<u8>,
        investor_class: Seq<u8>,
        jurisdiction_code: Seq<u8>,
        expiry_round: u64,
        transfer_locked: bool,
        receive_locked: bool,
        auditor_authorized: bool,
    ) -> Result<Self, ContractError> {
        if !self.is_governance_or_owner(caller) {
            Err(ContractError::CallerNotAuthorized)
        } else {
            let key = holder_key(token_id, holder);
            let mirror = self.next_mirror(
                token_id,
                holder,
                kyc_status,
                aml_status,
                investor_class,
                jurisdiction_code,
                expiry_round,
                transfer_locked,
                receive_locked,
                auditor_authorized,
            );
            Ok(
                AssetManagerView {
                    holder_mirrors: self.holder_mirrors.insert(key, mirror),
                    holder_policy_versions: self.holder_policy_versions.insert(
                        key,
                        mirror.holder_policy_version,
                    ),
                    ..self
                },
            )
        }
    }
}

/// An asset manager contract.
pub struct DrwaAssetManager {
    owner: Address,
    governance: Option<Address>,
    pending_governance: Option<Address>,
    assets: ByteMap<AssetRecord>,
    holder_mirrors: ByteMap<DrwaHolderMirror>,
    holder_policy_versions: ByteMap<u64>,
    events: Vec<DrwaEvent>,
}

impl View for DrwaAssetManager {
    type V = AssetManagerView;

    closed spec fn view(&self) -> AssetManagerView {
        AssetManagerView {
            owner: self.owner@,
            governance: address_view(self.governance),
            pending_governance: address_view(self.pending_governance),
            assets: self.assets@.map_values(|r: AssetRecord| r@),
            holder_mirrors: self.holder_mirrors@.map_values(|m: DrwaHolderMirror| m@),
            holder_policy_versions: self.holder_policy_versions@,
            events: events_view(self.events@),
        }
    }
}

impl DrwaAssetManager {
    fn emit(&mut self, event: DrwaEvent)
        ensures
            final(self)@ == (AssetManagerView { events: old(self)@.events.push(event@), ..old(self)@ }),
    {
        proof {
            use_type_invariant(&*self);
        }
        let mut events: Vec<DrwaEvent> = Vec::new();
        std::mem::swap(&mut events, &mut self.events);
        log_event(&mut events, event);
        self.events = events;
    }

    /// The events logged so far, oldest first.
    pub fn events(&self) -> (r: &Vec<DrwaEvent>)
        ensures
            events_view(r@) == self@.events,
    {
        &self.events
    }

    #[verifier::type_invariant]
    spec fn storage_wf(self) -> bool {
        &&& self.assets.wf()
        &&& self.holder_mirrors.wf()
        &&& self.holder_policy_versions.wf()
    }

    /// Deploys the contract; the deployer becomes its owner.
    pub fn init(owner: Address) -> (c: Self)
        ensures
            c@ == (AssetManagerView {
                owner: owner@,
                governance: None,
                pending_governance: None,
                assets: Map::empty(),
                holder_mirrors: Map::empty(),
                holder_policy_versions: Map::empty(),
                events: Seq::empty(),
            }),
    {
        let c = DrwaAssetManager {
            owner,
            governance: None,
            pending_governance: None,
            assets: ByteMap::new(),
            holder_mirrors: ByteMap::new(),
            holder_policy_versions: ByteMap::new(),
            events: Vec::new(),
        };
        assert(c@.assets =~= Map::empty());
        assert(c@.holder_mirrors =~= Map::empty());
        assert(c@.events =~= Seq::empty());
        c
    }

    /// The owner of the contract.
    pub fn owner(&self) -> (a: Address)
        ensures
            a@ == self@.owner,
    {
        self.owner
    }

    /// The accepted governance, if any.
    pub fn governance(&self) -> (a: Option<Address>)
        ensures
            address_view(a) == self@.governance,
    {
        self.governance
    }

    /// The proposed governance awaiting acceptance, if any.
    pub fn pending_governance(&self) -> (a: Option<Address>)
        ensures
            address_view(a) == self@.pending_governance,
    {
        self.pending_governance
    }

    /// The asset registered under a token id, if any.
    pub fn asset(&self, token_id: &Vec<u8>) -> (r: Option<&AssetRecord>)
        ensures
            match r {
                Some(a) => self@.assets.contains_key(token_id@) && a@ == self@.assets[token_id@],
                None => !self@.assets.contains_key(token_id@),
            },
    {
        proof {
            use_type_invariant(self);
        }
        self.assets.get(token_id)
    }

    /// The compliance mirror of a holder of a token, if one was synced.
    pub fn holder_mirror(&self, token_id: &Vec<u8>, holder: &Address) -> (r: Option<
        &DrwaHolderMirror,
    >)
        ensures
            match r {
                Some(m) => self@.holder_mirrors.contains_key(holder_key(token_id@, holder@))
                    && m@ == self@.holder_mirrors[holder_key(token_id@, holder@)],
                None => !self@.holder_mirrors.contains_key(holder_key(token_id@, holder@)),
            },
    {
        proof {
            use_type_invariant(self);
        }
        let key = holder_storage_key(token_id, holder);
        self.holder_mirrors.get(&key)
    }

    /// The last version synced for a holder of a token; zero before the first.
    pub fn holder_policy_version(&self, token_id: &Vec<u8>, holder: &Address) -> (v: u64)
        ensures
            v == self@.holder_version(token_id@, holder@),
    {
        proof {
            use_type_invariant(self);
        }
        let key = holder_storage_key(token_id, holder);
        match self.holder_policy_versions.get(&key) {
            Some(v) => *v,
            None => 0,
        }
    }

    /// Passes when the caller is the accepted governance or the owner.
    pub fn require_governance_or_owner(&self, caller: &Address) -> (r: Result<(), ContractError>)
        ensures
            r is Ok <==> self@.is_governance_or_owner(caller@),
            r is Err ==> r == Err::<(), ContractError>(ContractError::CallerNotAuthorized),
    {
        if let Some(g) = &self.governance {
            if caller.same(g) {
                return Ok(());
            }
        }
        if caller.same(&self.owner) {
            Ok(())
        } else {
            Err(ContractError::CallerNotAuthorized)
        }
    }

    /// The owner proposes a new governance address.
    pub fn set_governance(&mut self, caller: &Address, governance: Address) -> (r: Result<
        (),
        ContractError,
    >)
        ensures
            match old(self)@.set_governance(caller@, governance@) {
                Ok(s) => r is Ok && final(self)@ == s,
                Err(e) => r == Err::<(), ContractError>(e) && final(self)@ == old(self)@,
            },
    {
        proof {
            use_type_invariant(&*self);
        }
        if !caller.same(&self.owner) {
            return Err(ContractError::OnlyOwner);
        }
        if governance.is_zero() {
            return Err(ContractError::GovernanceZero);
        }
        self.pending_governance = Some(governance);
        self.emit(DrwaEvent::GovernanceProposed { governance });
        Ok(())
    }

    /// The proposed governance accepts the role.
    pub fn accept_governance(&mut self, caller: &Address) -> (r: Result<(), ContractError>)
        ensures
            match old(self)@.accept_governance(caller@) {
                Ok(s) => r is Ok && final(self)@ == s,
                Err(e) => r == Err::<(), ContractError>(e) && final(self)@ == old(self)@,
            },
    {
        proof {
            use_type_invariant(&*self);
        }
        match self.pending_governance {
            None => Err(ContractError::PendingGovernanceNotSet),
            Some(pending) => {
                if !caller.same(&pending) {
                    return Err(ContractError::CallerNotPendingGovernance);
                }
                self.governance = Some(pending);
                self.pending_governance = None;
                self.emit(DrwaEvent::GovernanceAccepted { governance: pending });
                Ok(())
            },
        }
    }

    /// Registers a regulated asset under its token id.
    pub fn register_asset(
        &mut self,
        caller: &Address,
        token_id: Vec<u8>,
        carrier_type: Vec<u8>,
        asset_class: Vec<u8>,
        policy_id: Vec<u8>,
    ) -> (r: Result<(), ContractError>)
        ensures
            match old(self)@.register_asset(
                caller@,
                token_id@,
                carrier_type@,
                asset_class@,
                policy_id@,
            ) {
                Ok(s) => r is Ok && final(self)@ == s,
                Err(e) => r == Err::<(), ContractError>(e) && final(self)@ == old(self)@,
            },
    {
        proof {
            use_type_invariant(&*self);
        }
        self.require_governance_or_owner(caller)?;
        let key = token_id.clone();
        let event = DrwaEvent::AssetRegistered {
            token_id: token_id.clone(),
            policy_id: policy_id.clone(),
            regulated: true,
        };
        let record = AssetRecord {
            token_id,
            carrier_type,
            asset_class,
            policy_id,
            regulated: true,
        };
        let ghost rv = record@;
        let mut assets = ByteMap::new();
        std::mem::swap(&mut assets, &mut self.assets);
        assets.insert(key, record);
        self.assets = assets;
        assert(self@.assets =~= old(self)@.assets.insert(rv.token_id, rv));
        self.emit(event);
        Ok(())
    }

    /// Serializes a holder mirror into the body of its sync operation.
    pub fn serialize_holder(holder: &DrwaHolderMirror) -> (result: Vec<u8>)
        ensures
            result@ == holder_body(holder@),
    {
        let mut result: Vec<u8> = Vec::new();
        append_u64_be(&mut result, holder.holder_policy_version);
        append_len_prefixed(&mut result, &holder.kyc_status);
        append_len_prefixed(&mut result, &holder.aml_status);
        append_len_prefixed(&mut result, &holder.investor_class);
        append_len_prefixed(&mut result, &holder.jurisdiction_code);
        append_u64_be(&mut result, holder.expiry_round);
        result.push(if holder.transfer_locked { 1u8 } else { 0u8 });
        result.push(if holder.receive_locked { 1u8 } else { 0u8 });
        result.push(if holder.auditor_authorized { 1u8 } else { 0u8 });
        assert(result@ =~= holder_body(holder@));
        result
    }

    /// Records a holder's compliance state under the next version for that
    /// holder of that token, and returns the sync envelope that mirrors it:
    /// one holder-mirror operation, sealed with the Keccak-256 digest of the
    /// canonical payload.
    pub fn sync_holder_compliance(
        &mut self,
        caller: &Address,
        token_id: Vec<u8>,
        holder: Address,
        kyc_status: Vec<u8>,
        aml_status: Vec<u8>,
        investor_class: Vec<u8>,
        jurisdiction_code: Vec<u8>,
        expiry_round: u64,
        transfer_locked: bool,
        receive_locked: bool,
        auditor_authorized: bool,
    ) -> (r: Result<DrwaSyncEnvelope, ContractError>)
        requires
            old(self)@.holder_version(token_id@, holder@) < u64::MAX,
        ensures
            match old(self)@.sync_holder_compliance(
                caller@,
                token_id@,
                holder@,
                kyc_status@,
                aml_status@,
                investor_class@,
                jurisdiction_code@,
                expiry_round,
                transfer_locked,
                receive_locked,
                auditor_authorized,
            ) {
                Ok(s) => {
                    &&& final(self)@ == s
                    &&& r matches Ok(envelope) && {
                        let mirror = old(self)@.next_mirror(
                            token_id@,
                            holder@,
                            kyc_status@,
                            aml_status@,
                            investor_class@,
                            jurisdiction_code@,
                            expiry_round,
                            transfer_locked,
                            receive_locked,
                            auditor_authorized,
                        );
                        &&& envelope.caller_domain == DrwaCallerDomain::AssetManager
                        &&& envelope.operations@.len() == 1
                        &&& envelope.operations@[0].operation_type
                            == DrwaSyncOperationType::HolderMirror
                        &&& envelope.operations@[0].token_id@ == token_id@
                        &&& envelope.operations@[0].holder@ == holder@
                        &&& envelope.operations@[0].version == mirror.holder_policy_version
                        &&& envelope.operations@[0].body@ == holder_body(mirror)
                        &&& envelope.payload_hash@ == keccak256_digest(
                            envelope_payload(envelope.caller_domain, envelope.operations@),
                        )
                        &&& envelope.payload_hash@.len() == 32
                    }
                },
                Err(e) => r matches Err(e2) && e2 == e && final(self)@ == old(self)@,
            },
    {
        proof {
            use_type_invariant(&*self);
        }
        self.require_governance_or_owner(caller)?;
        let key = holder_storage_key(&token_id, &holder);
        let current: u64 = match self.holder_policy_versions.get(&key) {
            Some(v) => *v,
            None => 0,
        };
        let next_version: u64 = current + 1;
        let mirror = DrwaHolderMirror {
            holder_policy_version: next_version,
            kyc_status,
            aml_status,
            investor_class,
            jurisdiction_code,
            expiry_round,
            transfer_locked,
            receive_locked,
            auditor_authorized,
        };
        let ghost mv = mirror@;
        let body = Self::serialize_holder(&mirror);
        let mut mirrors = ByteMap::new();
        std::mem::swap(&mut mirrors, &mut self.holder_mirrors);
        mirrors.insert(key.clone(), mirror);
        self.holder_mirrors = mirrors;
        let mut versions = ByteMap::new();
        std::mem::swap(&mut versions, &mut self.holder_policy_versions);
        versions.insert(key, next_version);
        self.holder_policy_versions = versions;
        assert(self@.holder_mirrors =~= old(self)@.holder_mirrors.insert(
            holder_key(token_id@, holder@),
            mv,
        ));
        let mut operations: Vec<DrwaSyncOperation> = Vec::new();
        operations.push(
            DrwaSyncOperation {
                operation_type: DrwaSyncOperationType::HolderMirror,
                token_id,
                holder,
                version: next_version,
                body,
            },
        );
        let caller_domain = DrwaCallerDomain::AssetManager;
        let payload = serialize_sync_envelope_payload(&caller_domain, &operations);
        let payload_hash = keccak256(&payload);
        Ok(DrwaSyncEnvelope { caller_domain, payload_hash, operations })
    }
}

/// Appends `value` preceded by its length as four big-endian bytes.
pub fn append_len_prefixed(dest: &mut Vec<u8>, value: &Vec<u8>)
    ensures
        final(dest)@ == old(dest)@ + len_prefixed(value@),
{
    push_len_prefixed(dest, value);
}

} // verus!
