//! The policy registry: keeps a versioned compliance policy per token and
//! hands each change to the chain's enforcement layer as a sealed sync
//! envelope whose body is the policy as a JSON object.
use vstd::prelude::*;
use vstd::string::StringSliceAdditionalSpecFns;

use crate::bytes::{address_view, append_bytes, append_text, is_zero_address, Address};
use crate::crypto::{keccak256, keccak256_digest};
use crate::error::ContractError;
use crate::events::{events_view, log_event, DrwaEvent, DrwaEventView};
use crate::store::ByteMap;
use crate::sync::{
    envelope_payload, serialize_sync_envelope_payload, DrwaCallerDomain, DrwaSyncEnvelope,
    DrwaSyncOperation, DrwaSyncOperationType, DrwaTokenPolicy, TokenPolicyView,
};

verus! {

/// A byte of the identifier alphabet `[A-Za-z0-9._-]` that policy keys are
/// limited to, so that they can stand inside a JSON string unescaped.
pub open spec fn is_json_safe_byte(b: u8) -> bool {
    ||| 0x41u8 <= b && b <= 0x5au8
    ||| 0x61u8 <= b && b <= 0x7au8
    ||| 0x30u8 <= b && b <= 0x39u8
    ||| b == 0x2eu8
    ||| b == 0x5fu8
    ||| b == 0x2du8
}

/// Why a policy key is refused, if it is.
pub open spec fn json_key_error(key: Seq<u8>) -> Option<ContractError> {
    if key.len() == 0 {
        Some(ContractError::PolicyKeyEmpty)
    } else if exists|i: int| 0 <= i < key.len() && !is_json_safe_byte(#[trigger] key[i]) {
        Some(ContractError::PolicyKeyUnsupportedCharacter)
    } else {
        None
    }
}

/// The refusal of the first refused key in the list, if any.
pub open spec fn first_json_key_error(keys: Seq<Seq<u8>>) -> Option<ContractError>
    decreases keys.len(),
{
    if keys.len() == 0 {
        None
    } else {
        match json_key_error(keys[0]) {
            Some(e) => Some(e),
            None => first_json_key_error(keys.drop_first()),
        }
    }
}

/// Why a policy cannot be serialized: the first refused investor class,
/// else the first refused jurisdiction.
pub open spec fn policy_key_error(p: TokenPolicyView) -> Option<ContractError> {
    match first_json_key_error(p.allowed_investor_classes) {
        Some(e) => Some(e),
        None => first_json_key_error(p.allowed_jurisdictions),
    }
}

/// `true` or `false`.
pub open spec fn json_bool(b: bool) -> Seq<u8> {
    if b {
        "true".spec_bytes()
    } else {
        "false".spec_bytes()
    }
}

/// One member `"key":true` of a key set.
pub open spec fn json_key_entry(key: Seq<u8>) -> Seq<u8> {
    "\"".spec_bytes() + key + "\":true".spec_bytes()
}

/// The members of a key set, separated by commas.
pub open spec fn json_key_entries(keys: Seq<Seq<u8>>) -> Seq<u8>
    decreases keys.len(),
{
    if keys.len() == 0 {
        Seq::empty()
    } else if keys.len() == 1 {
        json_key_entry(keys[0])
    } else {
        json_key_entries(keys.drop_last()) + ",".spec_bytes() + json_key_entry(keys.last())
    }
}

/// A key-set field (its opening text, the members, a closing brace), or
/// nothing when there are no keys.
pub open spec fn json_key_set(opening: Seq<u8>, keys: Seq<Seq<u8>>) -> Seq<u8> {
    if keys.len() == 0 {
        Seq::empty()
    } else {
        opening + json_key_entries(keys) + "}".spec_bytes()
    }
}

/// The JSON object that describes a token policy to the enforcement decoder.
pub open spec fn policy_json(p: TokenPolicyView) -> Seq<u8> {
    "{\"drwa_enabled\":".spec_bytes() + json_bool(p.drwa_enabled)
        + ",\"global_pause\":".spec_bytes() + json_bool(p.global_pause)
        + ",\"strict_auditor_mode\":".spec_bytes() + json_bool(p.strict_auditor_mode)
        + ",\"metadata_protection_enabled\":".spec_bytes() + json_bool(
        p.metadata_protection_enabled,
    ) + json_key_set(",\"allowed_investor_classes\":{".spec_bytes(), p.allowed_investor_classes)
        + json_key_set(",\"allowed_jurisdictions\":{".spec_bytes(), p.allowed_jurisdictions)
        + "}".spec_bytes()
}

/// The state of a policy registry.
pub struct PolicyRegistryView {
    pub owner: Seq<u8>,
    pub governance: Option<Seq<u8>>,
    pub pending_governance: Option<Seq<u8>>,
    pub token_policies: Map<Seq<u8>, TokenPolicyView>,
    pub token_policy_versions: Map<Seq<u8>, u64>,
    pub events: Seq<DrwaEventView>,
}

impl PolicyRegistryView {
    /// Whether the caller is the accepted governance or the owner.
    pub open spec fn is_governance_or_owner(self, caller: Seq<u8>) -> bool {
        (self.governance matches Some(g) && g == caller) || caller == self.owner
    }

    /// The last policy version of a token; zero before the first.
    pub open spec fn policy_version(self, token_id: Seq<u8>) -> u64 {
        if self.token_policy_versions.contains_key(token_id) {
            self.token_policy_versions[token_id]
        } else {
            0
        }
    }

    /// The owner proposes a new governance, which takes effect once accepted.
    pub open spec fn set_governance(self, caller: Seq<u8>, governance: Seq<u8>) -> Result<
        Self,
        ContractError,
    > {
        if caller != self.owner {
            Err(ContractError::OnlyOwner)
        } else if is_zero_address(governance) {
            Err(ContractError::GovernanceZero)
        } else {
            Ok(
                PolicyRegistryView {
                    pending_governance: Some(governance),
                    events: self.events.push(DrwaEventView::GovernanceProposed { governance }),
                    ..self
                },
            )
        }
    }

    /// The proposed governance accepts the role.
    pub open spec fn accept_governance(self, caller: Seq<u8>) -> Result<Self, ContractError> {
        match self.pending_governance {
            None => Err(ContractError::PendingGovernanceNotSet),
            Some(p) => if caller != p {
                Err(ContractError::CallerNotPendingGovernance)
            } else {
                Ok(
                    PolicyRegistryView {
                        governance: Some(p),
                        pending_governance: None,
                        events: self.events.push(DrwaEventView::GovernanceAccepted { governance: p }),
                        ..self
                    },
                )
            },
        }
    }

    /// The policy that the next change of a token stores.
    pub open spec fn next_policy(
        self,
        token_id: Seq<u8>,
        drwa_enabled: bool,
        global_pause: bool,
        strict_auditor_mode: bool,
        metadata_protection_enabled: bool,
        allowed_investor_classes: Seq<Seq<u8>>,
        allowed_jurisdictions: Seq<Seq<u8>>,
    ) -> TokenPolicyView {
        TokenPolicyView {
            drwa_enabled,
            global_pause,
            strict_auditor_mode,
            metadata_protection_enabled,
            token_policy_version: (self.policy_version(token_id) + 1) as u64,
            allowed_investor_classes,
            allowed_jurisdictions,
        }
    }

    /// Governance or owner stores a new policy for a token under the next
    /// version, provided every investor class and jurisdiction is a safe key.
    pub open spec fn set_token_policy(
        self,
        caller: Seq<u8>,
        token_id: Seq<u8>,
        drwa_enabled: bool,
        global_pause: bool,
        strict_auditor_mode: bool,
        metadata_protection_enabled: bool,
        allowed_investor_classes: Seq<Seq<u8>>,
        allowed_jurisdictions: Seq<Seq<u8>>,
    ) -> Result<Self, ContractError> {
        if !self.is_governance_or_owner(caller) {
            Err(ContractError::CallerNotAuthorized)
        } else {
            let policy = self.next_policy(
                token_id,
                drwa_enabled,
                global_pause,
                strict_auditor_mode,
                metadata_protection_enabled,
                allowed_investor_classes,
                allowed_jurisdictions,
            );
            match policy_key_error(policy) {
                Some(e) => Err(e),
                None => Ok(
                    PolicyRegistryView {
                        token_policies: self.token_policies.insert(token_id, policy),
                        token_policy_versions: self.token_policy_versions.insert(
                            token_id,
                            policy.token_policy_version,
                        ),
                        events: self.events.push(
                            DrwaEventView::TokenPolicy {
                                token_id,
                                drwa_enabled,
                                global_pause,
                                strict_auditor_mode,
                                token_policy_version: policy.token_policy_version,
                            },
                        ),
                        ..self
                    },
                ),
            }
        }
    }
}

/// Checks that a policy key is a non-empty word of the identifier alphabet.
pub fn require_json_safe_key(key: &Vec<u8>) -> (r: Result<(), ContractError>)
    ensures
        match json_key_error(key@) {
            Some(e) => r == Err::<(), ContractError>(e),
            None => r is Ok,
        },
{
    if key.len() == 0 {
        return Err(ContractError::PolicyKeyEmpty);
    }
    let mut i: usize = 0;
    while i < key.len()
        invariant
            i <= key@.len(),
            forall|j: int| 0 <= j < i ==> is_json_safe_byte(#[trigger] key@[j]),
        decreases key@.len() - i,
    {
        let b: u8 = key[i];
        let is_ascii_alpha = (0x41u8 <= b && b <= 0x5au8) || (0x61u8 <= b && b <= 0x7au8);
        let is_ascii_digit = 0x30u8 <= b && b <= 0x39u8;
        let is_safe_punct = b == 0x2eu8 || b == 0x5fu8 || b == 0x2du8;
        if !(is_ascii_alpha || is_ascii_digit || is_safe_punct) {
            assert(!is_json_safe_byte(key@[i as int]));
            return Err(ContractError::PolicyKeyUnsupportedCharacter);
        }
        i = i + 1;
    }
    Ok(())
}

/// Checks every key of a list, stopping at the first refused one.
fn require_json_safe_keys(keys: &Vec<Vec<u8>>) -> (r: Result<(), ContractError>)
    ensures
        match first_json_key_error(keys@.map_values(|k: Vec<u8>| k@)) {
            Some(e) => r == Err::<(), ContractError>(e),
            None => r is Ok,
        },
{
    let ghost all = keys@.map_values(|k: Vec<u8>| k@);
    assert(all.skip(0) =~= all);
    let mut i: usize = 0;
    while i < keys.len()
        invariant
            i <= keys@.len(),
            all == keys@.map_values(|k: Vec<u8>| k@),
            first_json_key_error(all) == first_json_key_error(all.skip(i as int)),
        decreases keys@.len() - i,
    {
        let ghost rest = all.skip(i as int);
        assert(rest[0] == keys@[i as int]@);
        require_json_safe_key(&keys[i])?;
        assert(rest.drop_first() =~= all.skip(i + 1));
        i = i + 1;
    }
    assert(all.skip(i as int) =~= Seq::<Seq<u8>>::empty());
    Ok(())
}

/// Appends a key-set field: the opening text, then `"key":true` members
/// separated by commas, then a closing brace; nothing when there are no keys.
fn append_key_set(body: &mut Vec<u8>, opening: &str, keys: &Vec<Vec<u8>>)
    ensures
        final(body)@ == old(body)@ + json_key_set(
            opening.spec_bytes(),
            keys@.map_values(|k: Vec<u8>| k@),
        ),
{
    let ghost all = keys@.map_values(|k: Vec<u8>| k@);
    if keys.len() == 0 {
        assert(old(body)@ + json_key_set(opening.spec_bytes(), all) =~= old(body)@);
        return;
    }
    append_text(body, opening);
    let ghost start = body@;
    let mut first = true;
    let mut i: usize = 0;
    while i < keys.len()
        invariant
            i <= keys@.len(),
            all == keys@.map_values(|k: Vec<u8>| k@),
            first == (i == 0),
            body@ == start + json_key_entries(all.take(i as int)),
        decreases keys@.len() - i,
    {
        let ghost before = body@;
        if !first {
            append_text(body, ",");
        }
        append_text(body, "\"");
        append_bytes(body, keys[i].as_slice());
        append_text(body, "\":true");
        first = false;
        proof {
            let next = all.take(i + 1);
            assert(next.last() == keys@[i as int]@);
            if i == 0 {
                assert(next.len() == 1);
                assert(body@ =~= start + json_key_entries(next));
            } else {
                assert(next.drop_last() =~= all.take(i as int));
                assert(body@ =~= start + json_key_entries(next));
            }
        }
        i = i + 1;
    }
    assert(all.take(keys@.len() as int) =~= all);
    append_text(body, "}");
    assert(body@ =~= old(body)@ + json_key_set(opening.spec_bytes(), all));
}

/// Appends `true` or `false`.
fn append_json_bool(body: &mut Vec<u8>, b: bool)
    ensures
        final(body)@ == old(body)@ + json_bool(b),
{
    if b {
        append_text(body, "true");
    } else {
        append_text(body, "false");
    }
}

/// Serializes a token policy as the JSON object whose field names the
/// enforcement decoder reads, after checking that every investor class and
/// jurisdiction is a safe key; the key sets are left out when empty.
pub fn serialize_policy_json(policy: &DrwaTokenPolicy) -> (r: Result<Vec<u8>, ContractError>)
    ensures
        match policy_key_error(policy@) {
            Some(e) => r matches Err(e2) && e2 == e,
            None => r matches Ok(body) && body@ == policy_json(policy@),
        },
{
    require_json_safe_keys(&policy.allowed_investor_classes)?;
    require_json_safe_keys(&policy.allowed_jurisdictions)?;
    let mut body: Vec<u8> = Vec::new();
    append_text(&mut body, "{\"drwa_enabled\":");
    append_json_bool(&mut body, policy.drwa_enabled);
    append_text(&mut body, ",\"global_pause\":");
    append_json_bool(&mut body, policy.global_pause);
    append_text(&mut body, ",\"strict_auditor_mode\":");
    append_json_bool(&mut body, policy.strict_auditor_mode);
    append_text(&mut body, ",\"metadata_protection_enabled\":");
    append_json_bool(&mut body, policy.metadata_protection_enabled);
    append_key_set(&mut body, ",\"allowed_investor_classes\":{", &policy.allowed_investor_classes);
    append_key_set(&mut body, ",\"allowed_jurisdictions\":{", &policy.allowed_jurisdictions);
    append_text(&mut body, "}");
    assert(body@ =~= policy_json(policy@));
    Ok(body)
}

/// A policy registry contract.
pub struct DrwaPolicyRegistry {
    owner: Address,
    governance: Option<Address>,
    pending_governance: Option<Address>,
    token_policies: ByteMap<DrwaTokenPolicy>,
    token_policy_versions: ByteMap<u64>,
    events: Vec<DrwaEvent>,
}

impl View for DrwaPolicyRegistry {
    type V = PolicyRegistryView;

    closed spec fn view(&self) -> PolicyRegistryView {
        PolicyRegistryView {
            owner: self.owner@,
            governance: address_view(self.governance),
            pending_governance: address_view(self.pending_governance),
            token_policies: self.token_policies@.map_values(|p: DrwaTokenPolicy| p@),
            token_policy_versions: self.token_policy_versions@,
            events: events_view(self.events@),
        }
    }
}

impl DrwaPolicyRegistry {
    fn emit(&mut self, event: DrwaEvent)
        ensures
            final(self)@ == (PolicyRegistryView { events: old(self)@.events.push(event@), ..old(self)@ }),
    {
        proof {
            use_type_invariant(&*self);
        }
        let mut events: Vec<DrwaEvent> = Vec::new();
        std::mem::swap(&mut events, &mut self.events);
        log_event(&mut events, event);
        self.events = events;
    }

    /// The events logged so far, oldest first.
    pub fn events(&self) -> (r: &Vec<DrwaEvent>)
        ensures
            events_view(r@) == self@.events,
    {
        &self.events
    }

    #[verifier::type_invariant]
    spec fn storage_wf(self) -> bool {
        &&& self.token_policies.wf()
        &&& self.token_policy_versions.wf()
    }

    /// Deploys the contract; the deployer becomes its owner.
    pub fn init(owner: Address) -> (c: Self)
        ensures
            c@ == (PolicyRegistryView {
                owner: owner@,
                governance: None,
                pending_governance: None,
                token_policies: Map::empty(),
                token_policy_versions: Map::empty(),
                events: Seq::empty(),
            }),
    {
        let c = DrwaPolicyRegistry {
            owner,
            governance: None,
            pending_governance: None,
            token_policies: ByteMap::new(),
            token_policy_versions: ByteMap::new(),
            events: Vec::new(),
        };
        assert(c@.token_policies =~= Map::empty());
        assert(c@.events =~= Seq::empty());
        c
    }

    /// The owner of the contract.
    pub fn owner(&self) -> (a: Address)
        ensures
            a@ == self@.owner,
    {
        self.owner
    }

    /// The accepted governance, if any.
    pub fn governance(&self) -> (a: Option<Address>)
        ensures
            address_view(a) == self@.governance,
    {
        self.governance
    }

    /// The proposed governance awaiting acceptance, if any.
    pub fn pending_governance(&self) -> (a: Option<Address>)
        ensures
            address_view(a) == self@.pending_governance,
    {
        self.pending_governance
    }

    /// The policy of a token, if one was set.
    pub fn token_policy(&self, token_id: &Vec<u8>) -> (r: Option<&DrwaTokenPolicy>)
        ensures
            match r {
                Some(p) => self@.token_policies.contains_key(token_id@) && p@
                    == self@.token_policies[token_id@],
                None => !self@.token_policies.contains_key(token_id@),
            },
    {
        proof {
            use_type_invariant(self);
        }
        self.token_policies.get(token_id)
    }

    /// The last policy version of a token; zero before the first.
    pub fn token_policy_version(&self, token_id: &Vec<u8>) -> (v: u64)
        ensures
            v == self@.policy_version(token_id@),
    {
        proof {
            use_type_invariant(self);
        }
        match self.token_policy_versions.get(token_id) {
            Some(v) => *v,
            None => 0,
        }
    }

    /// Passes when the caller is the accepted governance or the owner.
    pub fn require_governance_or_owner(&self, caller: &Address) -> (r: Result<(), ContractError>)
        ensures
            r is Ok <==> self@.is_governance_or_owner(caller@),
            r is Err ==> r == Err::<(), ContractError>(ContractError::CallerNotAuthorized),
    {
        if let Some(g) = &self.governance {
            if caller.same(g) {
                return Ok(());
            }
        }
        if caller.same(&self.owner) {
            Ok(())
        } else {
            Err(ContractError::CallerNotAuthorized)
        }
    }

    /// The owner proposes a new governance address.
    pub fn set_governance(&mut self, caller: &Address, governance: Address) -> (r: Result<
        (),
        ContractError,
    >)
        ensures
            match old(self)@.set_governance(caller@, governance@) {
                Ok(s) => r is Ok && final(self)@ == s,
                Err(e) => r == Err::<(), ContractError>(e) && final(self)@ == old(self)@,
            },
    {
        proof {
            use_type_invariant(&*self);
        }
        if !caller.same(&self.owner) {
            return Err(ContractError::OnlyOwner);
        }
        if governance.is_zero() {
            return Err(ContractError::GovernanceZero);
        }
        self.pending_governance = Some(governance);
        self.emit(DrwaEvent::GovernanceProposed { governance });
        Ok(())
    }

    /// The proposed governance accepts the role.
    pub fn accept_governance(&mut self, caller: &Address) -> (r: Result<(), ContractError>)
        ensures
            match old(self)@.accept_governance(caller@) {
                Ok(s) => r is Ok && final(self)@ == s,
                Err(e) => r == Err::<(), ContractError>(e) && final(self)@ == old(self)@,
            },
    {
        proof {
            use_type_invariant(&*self);
        }
        match self.pending_governance {
            None => Err(ContractError::PendingGovernanceNotSet),
            Some(pending) => {
                if !caller.same(&pending) {
                    return Err(ContractError::CallerNotPendingGovernance);
                }
                self.governance = Some(pending);
                self.pending_governance = None;
                self.emit(DrwaEvent::GovernanceAccepted { governance: pending });
                Ok(())
            },
        }
    }

    /// Stores a new policy for a token under the next version and returns the
    /// sync envelope that mirrors it: one token-policy operation whose body is
    /// the policy's JSON object, sealed with the Keccak-256 digest of the
    /// canonical payload.
    pub fn set_token_policy(
        &mut self,
        caller: &Address,
        token_id: Vec<u8>,
        drwa_enabled: bool,
        global_pause: bool,
        strict_auditor_mode: bool,
        metadata_protection_enabled: bool,
        allowed_investor_classes: Vec<Vec<u8>>,
        allowed_jurisdictions: Vec<Vec<u8>>,
    ) -> (r: Result<DrwaSyncEnvelope, ContractError>)
        requires
            old(self)@.policy_version(token_id@) < u64::MAX,
        ensures
            match old(self)@.set_token_policy(
                caller@,
                token_id@,
                drwa_enabled,
                global_pause,
                strict_auditor_mode,
                metadata_protection_enabled,
                allowed_investor_classes@.map_values(|k: Vec<u8>| k@),
                allowed_jurisdictions@.map_values(|k: Vec<u8>| k@),
            ) {
                Ok(s) => {
                    &&& final(self)@ == s
                    &&& r matches Ok(envelope) && {
                        let policy = s.token_policies[token_id@];
                        &&& envelope.caller_domain == DrwaCallerDomain::PolicyRegistry
                        &&& envelope.operations@.len() == 1
                        &&& envelope.operations@[0].operation_type
                            == DrwaSyncOperationType::TokenPolicy
                        &&& envelope.operations@[0].token_id@ == token_id@
                        &&& is_zero_address(envelope.operations@[0].holder@)
                        &&& envelope.operations@[0].holder@.len() == 32
                        &&& envelope.operations@[0].version == policy.token_policy_version
                        &&& envelope.operations@[0].body@ == policy_json(policy)
                        &&& envelope.payload_hash@ == keccak256_digest(
                            envelope_payload(envelope.caller_domain, envelope.operations@),
                        )
                        &&& envelope.payload_hash@.len() == 32
                    }
                },
                Err(e) => r matches Err(e2) && e2 == e && final(self)@ == old(self)@,
            },
    {
        proof {
            use_type_invariant(&*self);
        }
        self.require_governance_or_owner(caller)?;
        let current: u64 = match self.token_policy_versions.get(&token_id) {
            Some(v) => *v,
            None => 0,
        };
        let next_version: u64 = current + 1;
        let policy = DrwaTokenPolicy {
            drwa_enabled,
            global_pause,
            strict_auditor_mode,
            metadata_protection_enabled,
            token_policy_version: next_version,
            allowed_investor_classes,
            allowed_jurisdictions,
        };
        let ghost pv = policy@;
        let body = serialize_policy_json(&policy)?;
        let mut policies = ByteMap::new();
        std::mem::swap(&mut policies, &mut self.token_policies);
        policies.insert(token_id.clone(), policy);
        self.token_policies = policies;
        let mut versions = ByteMap::new();
        std::mem::swap(&mut versions, &mut self.token_policy_versions);
        versions.insert(token_id.clone(), next_version);
        self.token_policy_versions = versions;
        assert(self@.token_policies =~= old(self)@.token_policies.insert(token_id@, pv));
        self.emit(
            DrwaEvent::TokenPolicy {
                token_id: token_id.clone(),
                drwa_enabled,
                global_pause,
                strict_auditor_mode,
                token_policy_version: next_version,
            },
        );
        let mut operations: Vec<DrwaSyncOperation> = Vec::new();
        operations.push(
            DrwaSyncOperation {
                operation_type: DrwaSyncOperationType::TokenPolicy,
                token_id,
                holder: Address::zero(),
                version: next_version,
                body,
            },
        );
        let caller_domain = DrwaCallerDomain::PolicyRegistry;
        let payload = serialize_sync_envelope_payload(&caller_domain, &operations);
        let payload_hash = keccak256(&payload);
        Ok(DrwaSyncEnvelope { caller_domain, payload_hash, operations })
    }
}

/// The policy body is a JSON object: it opens with `{` and closes with `}`,
/// which is how the decoder on the other side tells it from a binary body.
pub proof fn law_policy_json_is_braced(p: TokenPolicyView)
    ensures
        policy_json(p).len() >= 2,
        policy_json(p)[0] == 0x7bu8,
        policy_json(p)[policy_json(p).len() - 1] == 0x7du8,
{
    let open = "{\"drwa_enabled\":";
    let close = "}";
    reveal_strlit("{\"drwa_enabled\":");
    reveal_strlit("}");
    vstd::utf8::is_ascii_chars_encode_utf8(open@);
    vstd::utf8::is_ascii_chars_encode_utf8(close@);
    assert(open.spec_bytes()[0] == 0x7bu8);
    assert(close.spec_bytes()[0] == 0x7du8);
    let body = policy_json(p);
    assert(body[0] == open.spec_bytes()[0]);
    assert(body[body.len() - 1] == close.spec_bytes()[0]);
}

/// Every key of a list without refusals is a non-empty word of the safe
/// alphabet.
proof fn lemma_accepted_keys_are_safe(keys: Seq<Seq<u8>>)
    requires
        first_json_key_error(keys) is None,
    ensures
        forall|i: int| 0 <= i < keys.len() ==> #[trigger] keys[i].len() > 0,
        forall|i: int, j: int|
            0 <= i < keys.len() && 0 <= j < keys[i].len() ==> is_json_safe_byte(
                #[trigger] keys[i][j],
            ),
    decreases keys.len(),
{
    if keys.len() > 0 {
        lemma_accepted_keys_are_safe(keys.drop_first());
        assert forall|i: int, j: int|
            0 <= i < keys.len() && 0 <= j < keys[i].len() implies is_json_safe_byte(
            #[trigger] keys[i][j],
        ) by {
            if i > 0 {
                assert(keys[i] == keys.drop_first()[i - 1]);
            }
        }
        assert forall|i: int| 0 <= i < keys.len() implies #[trigger] keys[i].len() > 0 by {
            if i > 0 {
                assert(keys[i] == keys.drop_first()[i - 1]);
            }
        }
    }
}

/// The keys of a policy that serializes hold no byte that JSON would need to
/// escape inside a string: no quote, no backslash, no control byte.
pub proof fn law_accepted_policy_keys_need_no_escaping(p: TokenPolicyView)
    requires
        policy_key_error(p) is None,
    ensures
        forall|i: int, j: int|
            0 <= i < p.allowed_investor_classes.len() && 0 <= j
                < p.allowed_investor_classes[i].len() ==> {
                let b: u8 = #[trigger] p.allowed_investor_classes[i][j];
                b != 0x22u8 && b != 0x5cu8 && b >= 0x20u8
            },
        forall|i: int, j: int|
            0 <= i < p.allowed_jurisdictions.len() && 0 <= j < p.allowed_jurisdictions[i].len()
                ==> {
                let b: u8 = #[trigger] p.allowed_jurisdictions[i][j];
                b != 0x22u8 && b != 0x5cu8 && b >= 0x20u8
            },
{
    lemma_accepted_keys_are_safe(p.allowed_investor_classes);
    lemma_accepted_keys_are_safe(p.allowed_jurisdictions);
}

} // verus!
