//! Properties of the contracts that span several calls.
use vstd::prelude::*;
use vstd::string::StringSliceAdditionalSpecFns;

use crate::asset_manager::{holder_body, holder_key, AssetManagerView, AssetRecordView};
use crate::attestation::AttestationView;
use crate::bytes::{
    is_zero_address, u64_be, len_prefixed, lemma_len_prefixed_split, lemma_u32_be_roundtrip, u32_be,
    u32_from_be, Address,
};
use crate::error::ContractError;
use crate::identity_registry::{registration_expiry, IdentityRegistryView, DEFAULT_IDENTITY_VALIDITY_ROUNDS};
use crate::mrv::{season_key, MrvRegistryView, MrvReportProofView};
use crate::policy_registry::{first_json_key_error, json_key_error, policy_json, PolicyRegistryView};
use crate::events::DrwaEventView;
use crate::sync::{
    envelope_payload, DrwaCallerDomain, DrwaSyncOperation, HolderMirrorView, TokenPolicyView,
};

verus! {

/// Distinct (token, holder) pairs have distinct storage keys, for addresses
/// of 32 bytes and token ids shorter than 2^32 bytes.
pub proof fn lemma_holder_key_injective(t1: Seq<u8>, h1: Seq<u8>, t2: Seq<u8>, h2: Seq<u8>)
    requires
        h1.len() == 32,
        h2.len() == 32,
        t1.len() <= u32::MAX,
        t2.len() <= u32::MAX,
        holder_key(t1, h1) == holder_key(t2, h2),
    ensures
        t1 == t2,
        h1 == h2,
{
    let k1 = holder_key(t1, h1);
    let k2 = holder_key(t2, h2);
    lemma_u32_be_roundtrip(t1.len() as u32);
    lemma_u32_be_roundtrip(t2.len() as u32);
    assert(k1.subrange(0, 4) =~= u32_be(t1.len() as u32));
    assert(k2.subrange(0, 4) =~= u32_be(t2.len() as u32));
    assert(u32_from_be(u32_be(t1.len() as u32)) == u32_from_be(u32_be(t2.len() as u32)));
    assert(t1.len() == t2.len());
    assert(k1.subrange(4, 4 + t1.len() as int) =~= t1);
    assert(k2.subrange(4, 4 + t2.len() as int) =~= t2);
    assert(k1.subrange(4 + t1.len() as int, k1.len() as int) =~= h1);
    assert(k2.subrange(4 + t2.len() as int, k2.len() as int) =~= h2);
}

/// Handing governance over takes two steps: the owner's proposal leaves the
/// current governance (and so who is authorized) as it was, and only the
/// proposed address's acceptance installs it, clearing the proposal and
/// leaving the registered assets and holders untouched.
pub proof fn law_asset_manager_governance_handover(s: AssetManagerView, governance: Seq<u8>)
    requires
        !is_zero_address(governance),
    ensures
        s.set_governance(s.owner, governance) matches Ok(s1) && {
            &&& s1.governance == s.governance
            &&& s1.pending_governance == Some(governance)
            &&& forall|c: Seq<u8>| s1.is_governance_or_owner(c) == s.is_governance_or_owner(c)
            &&& s1.accept_governance(governance) matches Ok(s2) && {
                &&& s2.governance == Some(governance)
                &&& s2.pending_governance.is_none()
                &&& s2.owner == s.owner
                &&& s2.assets == s.assets
                &&& s2.holder_mirrors == s.holder_mirrors
                &&& s2.holder_policy_versions == s.holder_policy_versions
                &&& s2.is_governance_or_owner(governance)
            }
        },
{
}

/// Only the proposed address can accept a proposal; anyone else is refused.
pub proof fn law_asset_manager_accept_only_by_pending(s: AssetManagerView, caller: Seq<u8>)
    requires
        s.pending_governance matches Some(p) && p != caller,
    ensures
        s.accept_governance(caller) == Err::<AssetManagerView, ContractError>(
            ContractError::CallerNotPendingGovernance,
        ),
{
}

/// Each sync of a holder raises that holder's version by one and leaves
/// every other holder's version and mirror as it was.
pub proof fn law_holder_sync_counts_versions(
    s: AssetManagerView,
    caller: Seq<u8>,
    token_id: Seq<u8>,
    holder: Seq<u8>,
    kyc_status: Seq<u8>,
    aml_status: Seq<u8>,
    investor_class: Seq<u8>,
    jurisdiction_code: Seq<u8>,
    expiry_round: u64,
    transfer_locked: bool,
    receive_locked: bool,
    auditor_authorized: bool,
    other_token: Seq<u8>,
    other_holder: Seq<u8>,
)
    requires
        s.holder_version(token_id, holder) < u64::MAX,
        holder.len() == 32,
        other_holder.len() == 32,
        token_id.len() <= u32::MAX,
        other_token.len() <= u32::MAX,
        (other_token, other_holder) != (token_id, holder),
        s.sync_holder_compliance(
            caller,
            token_id,
            holder,
            kyc_status,
            aml_status,
            investor_class,
            jurisdiction_code,
            expiry_round,
            transfer_locked,
            receive_locked,
            auditor_authorized,
        ) is Ok,
    ensures
        ({
            let s1 = s.sync_holder_compliance(
                caller,
                token_id,
                holder,
                kyc_status,
                aml_status,
                investor_class,
                jurisdiction_code,
                expiry_round,
                transfer_locked,
                receive_locked,
                auditor_authorized,
            )->Ok_0;
            &&& s1.holder_version(token_id, holder) == s.holder_version(token_id, holder) + 1
            &&& s1.holder_mirrors[holder_key(token_id, holder)].holder_policy_version
                == s1.holder_version(token_id, holder)
            &&& s1.holder_version(other_token, other_holder) == s.holder_version(
                other_token,
                other_holder,
            )
            &&& s1.holder_mirrors.contains_key(holder_key(other_token, other_holder))
                == s.holder_mirrors.contains_key(holder_key(other_token, other_holder))
            &&& s1.holder_mirrors[holder_key(other_token, other_holder)]
                == s.holder_mirrors[holder_key(other_token, other_holder)]
            &&& s1.assets == s.assets
        }),
{
    if holder_key(other_token, other_holder) == holder_key(token_id, holder) {
        lemma_holder_key_injective(other_token, other_holder, token_id, holder);
    }
}

/// A registered asset reads back as registered, regulated.
pub proof fn law_asset_registration_reads_back(
    s: AssetManagerView,
    caller: Seq<u8>,
    token_id: Seq<u8>,
    carrier_type: Seq<u8>,
    asset_class: Seq<u8>,
    policy_id: Seq<u8>,
)
    requires
        s.is_governance_or_owner(caller),
    ensures
        s.register_asset(caller, token_id, carrier_type, asset_class, policy_id) matches Ok(s1)
            && s1.assets.contains_key(token_id) && s1.assets[token_id] == (AssetRecordView {
            token_id,
            carrier_type,
            asset_class,
            policy_id,
            regulated: true,
        }),
{
}

/// Each accepted policy change of a token raises its version by one and
/// stores exactly the policy that was set; other tokens keep theirs.
pub proof fn law_policy_change_counts_versions(
    s: PolicyRegistryView,
    caller: Seq<u8>,
    token_id: Seq<u8>,
    drwa_enabled: bool,
    global_pause: bool,
    strict_auditor_mode: bool,
    metadata_protection_enabled: bool,
    allowed_investor_classes: Seq<Seq<u8>>,
    allowed_jurisdictions: Seq<Seq<u8>>,
    other_token: Seq<u8>,
)
    requires
        s.policy_version(token_id) < u64::MAX,
        other_token != token_id,
        s.set_token_policy(
            caller,
            token_id,
            drwa_enabled,
            global_pause,
            strict_auditor_mode,
            metadata_protection_enabled,
            allowed_investor_classes,
            allowed_jurisdictions,
        ) is Ok,
    ensures
        ({
            let s1 = s.set_token_policy(
                caller,
                token_id,
                drwa_enabled,
                global_pause,
                strict_auditor_mode,
                metadata_protection_enabled,
                allowed_investor_classes,
                allowed_jurisdictions,
            )->Ok_0;
            &&& s1.policy_version(token_id) == s.policy_version(token_id) + 1
            &&& s1.token_policies[token_id].token_policy_version == s1.policy_version(token_id)
            &&& s1.token_policies[token_id].drwa_enabled == drwa_enabled
            &&& s1.token_policies[token_id].global_pause == global_pause
            &&& s1.token_policies[token_id].strict_auditor_mode == strict_auditor_mode
            &&& s1.token_policies[token_id].metadata_protection_enabled
                == metadata_protection_enabled
            &&& s1.token_policies[token_id].allowed_investor_classes == allowed_investor_classes
            &&& s1.token_policies[token_id].allowed_jurisdictions == allowed_jurisdictions
            &&& s1.policy_version(other_token) == s.policy_version(other_token)
            &&& s1.token_policies.contains_key(other_token) == s.token_policies.contains_key(
                other_token,
            )
            &&& s1.token_policies[other_token] == s.token_policies[other_token]
        }),
{
}

/// Handing governance of the policy registry over takes two steps: the
/// proposal changes no authority, the proposed address's acceptance installs
/// it.
pub proof fn law_policy_registry_governance_handover(s: PolicyRegistryView, governance: Seq<u8>)
    requires
        !is_zero_address(governance),
    ensures
        s.set_governance(s.owner, governance) matches Ok(s1) && {
            &&& s1.governance == s.governance
            &&& forall|c: Seq<u8>| s1.is_governance_or_owner(c) == s.is_governance_or_owner(c)
            &&& s1.accept_governance(governance) matches Ok(s2) && {
                &&& s2.governance == Some(governance)
                &&& s2.pending_governance.is_none()
                &&& s2.token_policies == s.token_policies
                &&& s2.token_policy_versions == s.token_policy_versions
            }
        },
{
}

/// Handing governance of the identity registry over takes two steps: the
/// proposal leaves the current governance in charge, the proposed address's
/// acceptance replaces it.
pub proof fn law_identity_registry_governance_handover(
    s: IdentityRegistryView,
    governance: Seq<u8>,
)
    requires
        !is_zero_address(governance),
    ensures
        s.set_governance(s.owner, governance) matches Ok(s1) && {
            &&& s1.governance == s.governance
            &&& s1.accept_governance(governance) matches Ok(s2) && {
                &&& s2.governance == governance
                &&& s2.pending_governance.is_none()
                &&& s2.identities == s.identities
            }
        },
{
}

/// A fresh registration starts with both statuses pending, no investor class,
/// and an expiry the validity period after the registration round (the last
/// round when that would overflow); a later status update keeps the legal
/// fields as registered.
pub proof fn law_identity_registration_then_update(
    s: IdentityRegistryView,
    caller: Seq<u8>,
    subject: Address,
    legal_name: Seq<u8>,
    jurisdiction_code: Seq<u8>,
    registration_number: Seq<u8>,
    entity_type: Seq<u8>,
    block_round: u64,
    kyc_status: Seq<u8>,
    aml_status: Seq<u8>,
    investor_class: Seq<u8>,
    expiry_round: u64,
)
    requires
        s.is_governance_or_owner(caller),
    ensures
        s.register_identity(
            caller,
            subject@,
            legal_name,
            jurisdiction_code,
            registration_number,
            entity_type,
            block_round,
        ) matches Ok(s1) && {
            let r1 = s1.identities[subject@];
            &&& s1.identities.contains_key(subject@)
            &&& r1.expiry_round >= block_round
            &&& block_round + DEFAULT_IDENTITY_VALIDITY_ROUNDS <= u64::MAX ==> r1.expiry_round
                == block_round + DEFAULT_IDENTITY_VALIDITY_ROUNDS
            &&& r1.investor_class.len() == 0
            &&& r1.kyc_status == r1.aml_status
            &&& s1.update_compliance_status(
                caller,
                subject,
                kyc_status,
                aml_status,
                investor_class,
                expiry_round,
            ) matches Ok(s2) && {
                let r2 = s2.identities[subject@];
                &&& r2.legal_name == legal_name
                &&& r2.jurisdiction_code == jurisdiction_code
                &&& r2.registration_number == registration_number
                &&& r2.entity_type == entity_type
                &&& r2.kyc_status == kyc_status
                &&& r2.aml_status == aml_status
                &&& r2.investor_class == investor_class
                &&& r2.expiry_round == expiry_round
            }
        },
{
    assert(registration_expiry(block_round) >= block_round);
}

/// A status update of an account that was never registered is refused.
pub proof fn law_identity_update_needs_registration(
    s: IdentityRegistryView,
    caller: Seq<u8>,
    subject: Address,
    kyc_status: Seq<u8>,
    aml_status: Seq<u8>,
    investor_class: Seq<u8>,
    expiry_round: u64,
)
    requires
        s.is_governance_or_owner(caller),
        !s.identities.contains_key(subject@),
    ensures
        s.update_compliance_status(
            caller,
            subject,
            kyc_status,
            aml_status,
            investor_class,
            expiry_round,
        ) == Err::<IdentityRegistryView, ContractError>(ContractError::IdentityStorageDecode { subject }),
{
}

/// Rotating the auditor takes two steps: until the proposed auditor accepts,
/// the current one alone can record; afterwards the new one can and the
/// former one is refused.
pub proof fn law_auditor_rotation(
    s: AttestationView,
    new_auditor: Seq<u8>,
    token_id: Seq<u8>,
    subject: Seq<u8>,
    attestation_type: Seq<u8>,
    evidence_hash: Seq<u8>,
    approved: bool,
    block_round: u64,
)
    requires
        !is_zero_address(new_auditor),
        new_auditor != s.auditor,
    ensures
        s.set_auditor(s.owner, new_auditor) matches Ok(s1) && {
            &&& s1.auditor == s.auditor
            &&& s1.record_attestation(
                new_auditor,
                token_id,
                subject,
                attestation_type,
                evidence_hash,
                approved,
                block_round,
            ) == Err::<AttestationView, ContractError>(ContractError::CallerNotAuditor)
            &&& s1.accept_auditor(new_auditor) matches Ok(s2) && {
                &&& s2.auditor == new_auditor
                &&& s2.pending_auditor.is_none()
                &&& s2.record_attestation(
                    s.auditor,
                    token_id,
                    subject,
                    attestation_type,
                    evidence_hash,
                    approved,
                    block_round,
                ) == Err::<AttestationView, ContractError>(ContractError::CallerNotAuditor)
                &&& s2.record_attestation(
                    new_auditor,
                    token_id,
                    subject,
                    attestation_type,
                    evidence_hash,
                    approved,
                    block_round,
                ) is Ok
            }
        },
{
}

/// Anchoring a report proof is idempotent: once anchored, anchoring the same
/// proof again succeeds and changes nothing, and the proof reads back by its
/// report id.
pub proof fn law_anchor_idempotent(s: MrvRegistryView, report: MrvReportProofView)
    requires
        s.anchor_report(s.owner, report) is Ok,
    ensures
        ({
            let s1 = s.anchor_report(s.owner, report)->Ok_0;
            &&& s1.anchor_report(s1.owner, report) == Ok::<MrvRegistryView, ContractError>(s1)
            &&& s1.report_proof(report.report_id) == Some(report)
        }),
{
}

/// A proof anchored under a new report id reads back by its season.
pub proof fn law_anchor_indexes_season(s: MrvRegistryView, report: MrvReportProofView)
    requires
        s.anchor_report(s.owner, report) is Ok,
        !s.report_proofs.contains_key(report.report_id),
    ensures
        s.anchor_report(s.owner, report)->Ok_0.report_proof_by_season(
            report.public_tenant_id,
            report.public_farm_id,
            report.public_season_id,
        ) == Some(report),
{
}

/// An anchored proof cannot be replaced: anchoring a different proof under
/// the same report id is refused, and the state stays as it was.
pub proof fn law_anchor_no_overwrite(
    s: MrvRegistryView,
    report: MrvReportProofView,
    other: MrvReportProofView,
)
    requires
        s.anchor_report(s.owner, report) is Ok,
        other.report_id == report.report_id,
        other != report,
        other.public_tenant_id.len() > 0,
        other.public_farm_id.len() > 0,
        other.public_season_id.len() > 0,
        other.report_hash.len() > 0,
        other.hash_algo.len() > 0,
        other.canonicalization.len() > 0,
    ensures
        s.anchor_report(s.owner, report)->Ok_0.anchor_report(s.owner, other) == Err::<
            MrvRegistryView,
            ContractError,
        >(ContractError::ConflictingReportProof),
{
}

/// Distinct (tenant, farm, season) triples have distinct storage keys, for
/// ids shorter than 2^32 bytes.
pub proof fn lemma_season_key_injective(
    t1: Seq<u8>,
    f1: Seq<u8>,
    s1: Seq<u8>,
    t2: Seq<u8>,
    f2: Seq<u8>,
    s2: Seq<u8>,
)
    requires
        t1.len() <= u32::MAX,
        f1.len() <= u32::MAX,
        s1.len() <= u32::MAX,
        t2.len() <= u32::MAX,
        f2.len() <= u32::MAX,
        s2.len() <= u32::MAX,
        season_key(t1, f1, s1) == season_key(t2, f2, s2),
    ensures
        t1 == t2,
        f1 == f2,
        s1 == s2,
{
    assert(season_key(t1, f1, s1) =~= len_prefixed(t1) + (len_prefixed(f1) + len_prefixed(s1)));
    assert(season_key(t2, f2, s2) =~= len_prefixed(t2) + (len_prefixed(f2) + len_prefixed(s2)));
    lemma_len_prefixed_split(t1, len_prefixed(f1) + len_prefixed(s1), t2, len_prefixed(f2) + len_prefixed(s2));
    lemma_len_prefixed_split(f1, len_prefixed(s1), f2, len_prefixed(s2));
    assert(len_prefixed(s1) =~= len_prefixed(s1) + Seq::<u8>::empty());
    assert(len_prefixed(s2) =~= len_prefixed(s2) + Seq::<u8>::empty());
    lemma_len_prefixed_split(s1, Seq::empty(), s2, Seq::empty());
}

/// The tenant, farm and season ids of a report are shorter than 2^32 bytes.
pub open spec fn season_fits(r: MrvReportProofView) -> bool {
    &&& r.public_tenant_id.len() <= u32::MAX
    &&& r.public_farm_id.len() <= u32::MAX
    &&& r.public_season_id.len() <= u32::MAX
}

/// The registry after the owner anchors each report of a list in turn; a
/// refused anchor changes nothing.
pub open spec fn anchor_all(s: MrvRegistryView, reports: Seq<MrvReportProofView>) -> MrvRegistryView
    decreases reports.len(),
{
    if reports.len() == 0 {
        s
    } else {
        let prev = anchor_all(s, reports.drop_last());
        match prev.anchor_report(prev.owner, reports.last()) {
            Ok(next) => next,
            Err(_) => prev,
        }
    }
}

/// Whether anchoring the last report of the list stored it under an id that
/// was not anchored before.
pub open spec fn last_is_first_anchor(s: MrvRegistryView, reports: Seq<MrvReportProofView>) -> bool
    recommends
        reports.len() > 0,
{
    let prev = anchor_all(s, reports.drop_last());
    &&& prev.anchor_report(prev.owner, reports.last()) is Ok
    &&& !prev.report_proofs.contains_key(reports.last().report_id)
}

/// The latest report of the list that was anchored under a new id with the
/// given (tenant, farm, season), if any.
pub open spec fn latest_first_anchor_of_season(
    s: MrvRegistryView,
    reports: Seq<MrvReportProofView>,
    tenant: Seq<u8>,
    farm: Seq<u8>,
    season: Seq<u8>,
) -> Option<MrvReportProofView>
    decreases reports.len(),
{
    if reports.len() == 0 {
        None
    } else {
        let r = reports.last();
        if last_is_first_anchor(s, reports) && r.public_tenant_id == tenant && r.public_farm_id
            == farm && r.public_season_id == season {
            Some(r)
        } else {
            latest_first_anchor_of_season(s, reports.drop_last(), tenant, farm, season)
        }
    }
}

proof fn lemma_anchor_all_season_index(
    s: MrvRegistryView,
    reports: Seq<MrvReportProofView>,
    tenant: Seq<u8>,
    farm: Seq<u8>,
    season: Seq<u8>,
)
    requires
        s.report_proofs == Map::<Seq<u8>, MrvReportProofView>::empty(),
        s.proof_by_season == Map::<Seq<u8>, Seq<u8>>::empty(),
        forall|i: int| 0 <= i < reports.len() ==> season_fits(#[trigger] reports[i]),
        tenant.len() <= u32::MAX,
        farm.len() <= u32::MAX,
        season.len() <= u32::MAX,
    ensures
        forall|k: Seq<u8>| #[trigger]
            anchor_all(s, reports).proof_by_season.contains_key(k) ==> anchor_all(
                s,
                reports,
            ).report_proofs.contains_key(anchor_all(s, reports).proof_by_season[k]),
        anchor_all(s, reports).report_proof_by_season(tenant, farm, season)
            == latest_first_anchor_of_season(s, reports, tenant, farm, season),
    decreases reports.len(),
{
    if reports.len() > 0 {
        let init = reports.drop_last();
        assert forall|i: int| 0 <= i < init.len() implies season_fits(#[trigger] init[i]) by {
            assert(init[i] == reports[i]);
        }
        lemma_anchor_all_season_index(s, init, tenant, farm, season);
        let prev = anchor_all(s, init);
        let r = reports.last();
        assert(season_fits(reports[reports.len() - 1]));
        let key = season_key(tenant, farm, season);
        let rkey = season_key(r.public_tenant_id, r.public_farm_id, r.public_season_id);
        if last_is_first_anchor(s, reports) {
            let next = anchor_all(s, reports);
            if !(r.public_tenant_id == tenant && r.public_farm_id == farm && r.public_season_id
                == season) {
                if key == rkey {
                    lemma_season_key_injective(
                        tenant,
                        farm,
                        season,
                        r.public_tenant_id,
                        r.public_farm_id,
                        r.public_season_id,
                    );
                }
                if prev.proof_by_season.contains_key(key) {
                    assert(prev.report_proofs.contains_key(prev.proof_by_season[key]));
                    assert(prev.proof_by_season[key] != r.report_id);
                }
            }
            assert forall|k: Seq<u8>| #[trigger]
                next.proof_by_season.contains_key(k) implies next.report_proofs.contains_key(
                next.proof_by_season[k],
            ) by {
                if k != rkey {
                    assert(prev.report_proofs.contains_key(prev.proof_by_season[k]));
                }
            }
        }
    }
}

/// The season lookup gives the latest report that was anchored under a new
/// id with that (tenant, farm, season), and nothing when no report was ever
/// anchored with it: starting from an empty registry, whatever the owner
/// anchored in between, for ids shorter than 2^32 bytes.
pub proof fn law_season_lookup_follows_first_anchors(
    s: MrvRegistryView,
    reports: Seq<MrvReportProofView>,
    tenant: Seq<u8>,
    farm: Seq<u8>,
    season: Seq<u8>,
)
    requires
        s.report_proofs == Map::<Seq<u8>, MrvReportProofView>::empty(),
        s.proof_by_season == Map::<Seq<u8>, Seq<u8>>::empty(),
        forall|i: int| 0 <= i < reports.len() ==> season_fits(#[trigger] reports[i]),
        tenant.len() <= u32::MAX,
        farm.len() <= u32::MAX,
        season.len() <= u32::MAX,
    ensures
        anchor_all(s, reports).report_proof_by_season(tenant, farm, season)
            == latest_first_anchor_of_season(s, reports, tenant, farm, season),
{
    lemma_anchor_all_season_index(s, reports, tenant, farm, season);
}

/// A byte of the identifier alphabet `[A-Za-z0-9._-]`, the ranges written
/// out.
pub open spec fn in_identifier_alphabet(b: u8) -> bool {
    ||| (0x41u8 <= b && b <= 0x5au8)
    ||| (0x61u8 <= b && b <= 0x7au8)
    ||| (0x30u8 <= b && b <= 0x39u8)
    ||| b == 0x2eu8
    ||| b == 0x5fu8
    ||| b == 0x2du8
}

/// A policy key is accepted exactly when it is non-empty and every byte lies
/// in `A..=Z`, `a..=z`, `0..=9`, or is `.`, `_` or `-`.
pub proof fn law_policy_key_alphabet(key: Seq<u8>)
    ensures
        json_key_error(key) is None <==> (key.len() > 0 && forall|i: int|
            0 <= i < key.len() ==> in_identifier_alphabet(#[trigger] key[i])),
{
}

proof fn lemma_identifier_keys_have_no_error(keys: Seq<Seq<u8>>)
    requires
        forall|i: int| 0 <= i < keys.len() ==> (#[trigger] keys[i]).len() > 0,
        forall|i: int, j: int|
            0 <= i < keys.len() && 0 <= j < keys[i].len() ==> in_identifier_alphabet(
                #[trigger] keys[i][j],
            ),
    ensures
        first_json_key_error(keys) is None,
    decreases keys.len(),
{
    if keys.len() > 0 {
        let k0 = keys[0];
        assert(k0.len() > 0);
        assert forall|j: int| 0 <= j < k0.len() implies in_identifier_alphabet(#[trigger] k0[j]) by {
            assert(keys[0][j] == k0[j]);
        }
        law_policy_key_alphabet(k0);
        let rest = keys.drop_first();
        assert forall|i: int| 0 <= i < rest.len() implies (#[trigger] rest[i]).len() > 0 by {
            assert(rest[i] == keys[i + 1]);
        }
        assert forall|i: int, j: int|
            0 <= i < rest.len() && 0 <= j < rest[i].len() implies in_identifier_alphabet(
            #[trigger] rest[i][j],
        ) by {
            assert(rest[i] == keys[i + 1]);
        }
        lemma_identifier_keys_have_no_error(rest);
    }
}

/// A governance or owner call that sets a policy whose investor classes and
/// jurisdictions are all non-empty words of `[A-Za-z0-9._-]` succeeds.
pub proof fn law_identifier_policy_is_accepted(
    s: PolicyRegistryView,
    caller: Seq<u8>,
    token_id: Seq<u8>,
    drwa_enabled: bool,
    global_pause: bool,
    strict_auditor_mode: bool,
    metadata_protection_enabled: bool,
    classes: Seq<Seq<u8>>,
    jurisdictions: Seq<Seq<u8>>,
)
    requires
        s.is_governance_or_owner(caller),
        forall|i: int| 0 <= i < classes.len() ==> (#[trigger] classes[i]).len() > 0,
        forall|i: int, j: int|
            0 <= i < classes.len() && 0 <= j < classes[i].len() ==> in_identifier_alphabet(
                #[trigger] classes[i][j],
            ),
        forall|i: int| 0 <= i < jurisdictions.len() ==> (#[trigger] jurisdictions[i]).len() > 0,
        forall|i: int, j: int|
            0 <= i < jurisdictions.len() && 0 <= j < jurisdictions[i].len()
                ==> in_identifier_alphabet(#[trigger] jurisdictions[i][j]),
    ensures
        s.set_token_policy(
            caller,
            token_id,
            drwa_enabled,
            global_pause,
            strict_auditor_mode,
            metadata_protection_enabled,
            classes,
            jurisdictions,
        ) is Ok,
{
    lemma_identifier_keys_have_no_error(classes);
    lemma_identifier_keys_have_no_error(jurisdictions);
}

/// `true` or `false`, spelled out.
pub open spec fn flag_text(b: bool) -> Seq<u8> {
    if b {
        "true".spec_bytes()
    } else {
        "false".spec_bytes()
    }
}

/// The four flag members that open every policy body, in this order.
pub open spec fn policy_flags_text(p: TokenPolicyView) -> Seq<u8> {
    "{\"drwa_enabled\":".spec_bytes() + flag_text(p.drwa_enabled) + ",\"global_pause\":".spec_bytes()
        + flag_text(p.global_pause) + ",\"strict_auditor_mode\":".spec_bytes() + flag_text(
        p.strict_auditor_mode,
    ) + ",\"metadata_protection_enabled\":".spec_bytes() + flag_text(
        p.metadata_protection_enabled,
    )
}

/// With at most one investor class and at most one jurisdiction, the policy
/// body is the four flag members, then `,"allowed_investor_classes":{"c":true}`
/// when there is a class `c`, then `,"allowed_jurisdictions":{"j":true}` when
/// there is a jurisdiction `j`, each present whether or not the other is,
/// then the closing brace.
pub proof fn law_policy_json_small_bodies(p: TokenPolicyView)
    requires
        p.allowed_investor_classes.len() <= 1,
        p.allowed_jurisdictions.len() <= 1,
    ensures
        policy_json(p) == policy_flags_text(p) + (if p.allowed_investor_classes.len() == 1 {
            ",\"allowed_investor_classes\":{".spec_bytes() + "\"".spec_bytes()
                + p.allowed_investor_classes[0] + "\":true".spec_bytes() + "}".spec_bytes()
        } else {
            Seq::empty()
        }) + (if p.allowed_jurisdictions.len() == 1 {
            ",\"allowed_jurisdictions\":{".spec_bytes() + "\"".spec_bytes()
                + p.allowed_jurisdictions[0] + "\":true".spec_bytes() + "}".spec_bytes()
        } else {
            Seq::empty()
        }) + "}".spec_bytes(),
{
    let lhs = policy_json(p);
    assert(lhs =~= policy_flags_text(p) + (if p.allowed_investor_classes.len() == 1 {
        ",\"allowed_investor_classes\":{".spec_bytes() + "\"".spec_bytes()
            + p.allowed_investor_classes[0] + "\":true".spec_bytes() + "}".spec_bytes()
    } else {
        Seq::empty()
    }) + (if p.allowed_jurisdictions.len() == 1 {
        ",\"allowed_jurisdictions\":{".spec_bytes() + "\"".spec_bytes()
            + p.allowed_jurisdictions[0] + "\":true".spec_bytes() + "}".spec_bytes()
    } else {
        Seq::empty()
    }) + "}".spec_bytes());
}

/// Whatever the investor classes, a policy with the single jurisdiction `j`
/// ends with `,"allowed_jurisdictions":{"j":true}}`.
pub proof fn law_policy_json_jurisdiction_tail(p: TokenPolicyView, j: Seq<u8>)
    requires
        p.allowed_jurisdictions == seq![j],
    ensures
        ({
            let body = policy_json(p);
            let tail = ",\"allowed_jurisdictions\":{".spec_bytes() + "\"".spec_bytes() + j
                + "\":true".spec_bytes() + "}".spec_bytes() + "}".spec_bytes();
            &&& body.len() >= tail.len()
            &&& body.subrange(body.len() - tail.len(), body.len() as int) == tail
        }),
{
    let body = policy_json(p);
    let tail = ",\"allowed_jurisdictions\":{".spec_bytes() + "\"".spec_bytes() + j
        + "\":true".spec_bytes() + "}".spec_bytes() + "}".spec_bytes();
    assert(p.allowed_jurisdictions.len() == 1);
    assert(p.allowed_jurisdictions[0] == j);
    let head = policy_flags_text(p) + (if p.allowed_investor_classes.len() == 0 {
        Seq::empty()
    } else {
        ",\"allowed_investor_classes\":{".spec_bytes() + crate::policy_registry::json_key_entries(
            p.allowed_investor_classes,
        ) + "}".spec_bytes()
    });
    assert(body =~= head + tail);
    assert(body.subrange(body.len() - tail.len(), body.len() as int) =~= tail);
}

/// The serialized holder mirror, byte by byte: the version as eight
/// big-endian bytes, then each of kyc status, aml status, investor class and
/// jurisdiction code after its four-byte length, then the expiry round as
/// eight big-endian bytes, then one byte each for transfer lock, receive
/// lock and auditor authorization (1 for set, 0 for clear).
#[verifier::rlimit(50)]
#[verifier::spinoff_prover]
pub proof fn law_holder_body_layout(m: HolderMirrorView)
    ensures
        ({
            let body = holder_body(m);
            let k = m.kyc_status.len() as int;
            let a = m.aml_status.len() as int;
            let c = m.investor_class.len() as int;
            let j = m.jurisdiction_code.len() as int;
            let n = body.len() as int;
            &&& n == 35 + k + a + c + j
            &&& body.subrange(0, 8) == u64_be(m.holder_policy_version)
            &&& body.subrange(8, 12) == u32_be(k as u32)
            &&& body.subrange(12, 12 + k) == m.kyc_status
            &&& body.subrange(12 + k, 16 + k) == u32_be(a as u32)
            &&& body.subrange(16 + k, 16 + k + a) == m.aml_status
            &&& body.subrange(16 + k + a, 20 + k + a) == u32_be(c as u32)
            &&& body.subrange(20 + k + a, 20 + k + a + c) == m.investor_class
            &&& body.subrange(20 + k + a + c, 24 + k + a + c) == u32_be(j as u32)
            &&& body.subrange(24 + k + a + c, 24 + k + a + c + j) == m.jurisdiction_code
            &&& body.subrange(24 + k + a + c + j, 32 + k + a + c + j) == u64_be(m.expiry_round)
            &&& body[n - 3] == (if m.transfer_locked { 1u8 } else { 0u8 })
            &&& body[n - 2] == (if m.receive_locked { 1u8 } else { 0u8 })
            &&& body[n - 1] == (if m.auditor_authorized { 1u8 } else { 0u8 })
        }),
{
    let body = holder_body(m);
    let k = m.kyc_status.len() as int;
    let a = m.aml_status.len() as int;
    let c = m.investor_class.len() as int;
    let j = m.jurisdiction_code.len() as int;
    assert(body.subrange(0, 8) =~= u64_be(m.holder_policy_version));
    assert(body.subrange(8, 12) =~= u32_be(k as u32));
    assert(body.subrange(12, 12 + k) =~= m.kyc_status);
    assert(body.subrange(12 + k, 16 + k) =~= u32_be(a as u32));
    assert(body.subrange(16 + k, 16 + k + a) =~= m.aml_status);
    assert(body.subrange(16 + k + a, 20 + k + a) =~= u32_be(c as u32));
    assert(body.subrange(20 + k + a, 20 + k + a + c) =~= m.investor_class);
    assert(body.subrange(20 + k + a + c, 24 + k + a + c) =~= u32_be(j as u32));
    assert(body.subrange(24 + k + a + c, 24 + k + a + c + j) =~= m.jurisdiction_code);
    assert(body.subrange(24 + k + a + c + j, 32 + k + a + c + j) =~= u64_be(m.expiry_round));
}

/// A sync stores each argument in its own field of the holder's mirror, under
/// the version one past the holder's last one.
pub proof fn law_holder_sync_stores_arguments(
    s: AssetManagerView,
    caller: Seq<u8>,
    token_id: Seq<u8>,
    holder: Seq<u8>,
    kyc_status: Seq<u8>,
    aml_status: Seq<u8>,
    investor_class: Seq<u8>,
    jurisdiction_code: Seq<u8>,
    expiry_round: u64,
    transfer_locked: bool,
    receive_locked: bool,
    auditor_authorized: bool,
)
    requires
        s.is_governance_or_owner(caller),
        s.holder_version(token_id, holder) < u64::MAX,
    ensures
        s.sync_holder_compliance(
            caller,
            token_id,
            holder,
            kyc_status,
            aml_status,
            investor_class,
            jurisdiction_code,
            expiry_round,
            transfer_locked,
            receive_locked,
            auditor_authorized,
        ) matches Ok(s1) && {
            let m = s1.holder_mirrors[holder_key(token_id, holder)];
            &&& s1.holder_mirrors.contains_key(holder_key(token_id, holder))
            &&& m.holder_policy_version == s.holder_version(token_id, holder) + 1
            &&& m.kyc_status == kyc_status
            &&& m.aml_status == aml_status
            &&& m.investor_class == investor_class
            &&& m.jurisdiction_code == jurisdiction_code
            &&& m.expiry_round == expiry_round
            &&& m.transfer_locked == transfer_locked
            &&& m.receive_locked == receive_locked
            &&& m.auditor_authorized == auditor_authorized
        },
{
}

/// A 32-byte address counts as zero only when all 32 bytes are zero.
pub proof fn law_zero_address_is_all_zero(a: Seq<u8>)
    requires
        a.len() == 32,
    ensures
        is_zero_address(a) <==> (forall|i: int| 0 <= i < 32 ==> a[i] == 0u8),
        is_zero_address(a) <==> a == Seq::new(32, |i: int| 0u8),
{
    if is_zero_address(a) {
        assert(a =~= Seq::new(32, |i: int| 0u8));
    }
}

/// Any 32-byte address with a non-zero byte, at whatever position, can be
/// proposed as governance or auditor by the owner of each contract, and
/// becomes the pending one; the all-zero address is refused.
pub proof fn law_nonzero_address_can_be_proposed(
    am: AssetManagerView,
    pr: PolicyRegistryView,
    ir: IdentityRegistryView,
    at: AttestationView,
    a: Seq<u8>,
    i: int,
)
    requires
        a.len() == 32,
        0 <= i < 32,
        a[i] != 0u8,
    ensures
        am.set_governance(am.owner, a) matches Ok(s) && s.pending_governance == Some(a),
        pr.set_governance(pr.owner, a) matches Ok(s) && s.pending_governance == Some(a),
        ir.set_governance(ir.owner, a) matches Ok(s) && s.pending_governance == Some(a),
        at.set_auditor(at.owner, a) matches Ok(s) && s.pending_auditor == Some(a),
        am.set_governance(am.owner, Seq::new(32, |k: int| 0u8)) == Err::<
            AssetManagerView,
            ContractError,
        >(ContractError::GovernanceZero),
        pr.set_governance(pr.owner, Seq::new(32, |k: int| 0u8)) == Err::<
            PolicyRegistryView,
            ContractError,
        >(ContractError::GovernanceZero),
        ir.set_governance(ir.owner, Seq::new(32, |k: int| 0u8)) == Err::<
            IdentityRegistryView,
            ContractError,
        >(ContractError::GovernanceZero),
        at.set_auditor(at.owner, Seq::new(32, |k: int| 0u8)) == Err::<
            AttestationView,
            ContractError,
        >(ContractError::AuditorZero),
{
    law_zero_address_is_all_zero(a);
    law_zero_address_is_all_zero(Seq::new(32, |k: int| 0u8));
}

/// The four big-endian bytes of a `u32` weigh 2^24, 2^16, 2^8 and 1.
pub proof fn law_u32_be_weights(n: u32)
    ensures
        u32_be(n).len() == 4,
        u32_be(n)[0] as int * 16777216 + u32_be(n)[1] as int * 65536 + u32_be(n)[2] as int * 256
            + u32_be(n)[3] as int == n as int,
{
    let b0: u8 = u32_be(n)[0];
    let b1: u8 = u32_be(n)[1];
    let b2: u8 = u32_be(n)[2];
    let b3: u8 = u32_be(n)[3];
    assert(b0 as u32 * 16777216u32 + b1 as u32 * 65536u32 + b2 as u32 * 256u32 + b3 as u32 == n)
        by (bit_vector)
        requires
            b0 == (n >> 24u32) as u8,
            b1 == (n >> 16u32) as u8,
            b2 == (n >> 8u32) as u8,
            b3 == n as u8,
    ;
}

/// The eight big-endian bytes of a `u64` weigh 2^56 down to 1.
pub proof fn law_u64_be_weights(n: u64)
    ensures
        u64_be(n).len() == 8,
        u64_be(n)[0] as int * 72057594037927936 + u64_be(n)[1] as int * 281474976710656
            + u64_be(n)[2] as int * 1099511627776 + u64_be(n)[3] as int * 4294967296
            + u64_be(n)[4] as int * 16777216 + u64_be(n)[5] as int * 65536 + u64_be(n)[6] as int
            * 256 + u64_be(n)[7] as int == n as int,
{
    let b0: u8 = u64_be(n)[0];
    let b1: u8 = u64_be(n)[1];
    let b2: u8 = u64_be(n)[2];
    let b3: u8 = u64_be(n)[3];
    let b4: u8 = u64_be(n)[4];
    let b5: u8 = u64_be(n)[5];
    let b6: u8 = u64_be(n)[6];
    let b7: u8 = u64_be(n)[7];
    assert(b0 as u64 * 72057594037927936u64 + b1 as u64 * 281474976710656u64 + b2 as u64
        * 1099511627776u64 + b3 as u64 * 4294967296u64 + b4 as u64 * 16777216u64 + b5 as u64
        * 65536u64 + b6 as u64 * 256u64 + b7 as u64 == n) by (bit_vector)
        requires
            b0 == (n >> 56u64) as u8,
            b1 == (n >> 48u64) as u8,
            b2 == (n >> 40u64) as u8,
            b3 == (n >> 32u64) as u8,
            b4 == (n >> 24u64) as u8,
            b5 == (n >> 16u64) as u8,
            b6 == (n >> 8u64) as u8,
            b7 == n as u8,
    ;
}

/// A payload of one operation, byte by byte: the caller domain byte (0 for
/// the policy registry, 1 for the asset manager, 2 for recovery), the
/// operation type byte (0 token policy, 1 holder mirror, 2 holder mirror
/// delete), the token id after its four-byte length, the 32-byte holder after
/// its length, the version as eight big-endian bytes, and the body after its
/// length.
#[verifier::rlimit(50)]
#[verifier::spinoff_prover]
pub proof fn law_single_operation_payload_layout(d: DrwaCallerDomain, op: DrwaSyncOperation)
    ensures
        ({
            let p = envelope_payload(d, seq![op]);
            let t = op.token_id@.len() as int;
            let b = op.body@.len() as int;
            &&& p.len() == 54 + t + b
            &&& p[0] == (match d {
                DrwaCallerDomain::PolicyRegistry => 0u8,
                DrwaCallerDomain::AssetManager => 1u8,
                DrwaCallerDomain::RecoveryAdmin => 2u8,
            })
            &&& p[1] == (match op.operation_type {
                crate::sync::DrwaSyncOperationType::TokenPolicy => 0u8,
                crate::sync::DrwaSyncOperationType::HolderMirror => 1u8,
                crate::sync::DrwaSyncOperationType::HolderMirrorDelete => 2u8,
            })
            &&& p.subrange(2, 6) == u32_be(t as u32)
            &&& p.subrange(6, 6 + t) == op.token_id@
            &&& p.subrange(6 + t, 10 + t) == u32_be(32u32)
            &&& p.subrange(10 + t, 42 + t) == op.holder@
            &&& p.subrange(42 + t, 50 + t) == u64_be(op.version)
            &&& p.subrange(50 + t, 54 + t) == u32_be(b as u32)
            &&& p.subrange(54 + t, 54 + t + b) == op.body@
        }),
{
    let ops = seq![op];
    let p = envelope_payload(d, ops);
    let t = op.token_id@.len() as int;
    let b = op.body@.len() as int;
    assert(ops.drop_last() =~= Seq::<DrwaSyncOperation>::empty());
    assert(crate::sync::operations_bytes(ops.drop_last()) =~= Seq::<u8>::empty());
    assert(op.holder@.len() == 32);
    assert(p =~= seq![crate::sync::caller_domain_tag(d)] + crate::sync::operation_bytes(op));
    assert(p[1] == crate::sync::operation_type_tag(op.operation_type));
    assert(p.subrange(2, 6) =~= u32_be(t as u32));
    assert(p.subrange(6, 6 + t) =~= op.token_id@);
    assert(p.subrange(6 + t, 10 + t) =~= u32_be(32u32));
    assert(p.subrange(10 + t, 42 + t) =~= op.holder@);
    assert(p.subrange(42 + t, 50 + t) =~= u64_be(op.version));
    assert(p.subrange(50 + t, 54 + t) =~= u32_be(b as u32));
    assert(p.subrange(54 + t, 54 + t + b) =~= op.body@);
}

/// With two investor classes `c1, c2` and no jurisdiction, the policy body is
/// the flag members, then `,"allowed_investor_classes":{"c1":true,"c2":true}`,
/// then the closing brace.
pub proof fn law_policy_json_two_classes(p: TokenPolicyView, c1: Seq<u8>, c2: Seq<u8>)
    requires
        p.allowed_investor_classes == seq![c1, c2],
        p.allowed_jurisdictions.len() == 0,
    ensures
        policy_json(p) == policy_flags_text(p) + ",\"allowed_investor_classes\":{".spec_bytes()
            + "\"".spec_bytes() + c1 + "\":true".spec_bytes() + ",".spec_bytes() + "\"".spec_bytes()
            + c2 + "\":true".spec_bytes() + "}".spec_bytes() + "}".spec_bytes(),
{
    let keys = p.allowed_investor_classes;
    assert(keys.drop_last() =~= seq![c1]);
    assert(crate::policy_registry::json_key_entries(seq![c1]) == crate::policy_registry::json_key_entry(c1));
    assert(crate::policy_registry::json_key_entries(keys) == crate::policy_registry::json_key_entry(c1)
        + ",".spec_bytes() + crate::policy_registry::json_key_entry(c2));
    assert(policy_json(p) =~= policy_flags_text(p) + ",\"allowed_investor_classes\":{".spec_bytes()
        + "\"".spec_bytes() + c1 + "\":true".spec_bytes() + ",".spec_bytes() + "\"".spec_bytes()
        + c2 + "\":true".spec_bytes() + "}".spec_bytes() + "}".spec_bytes());
}

/// In the asset manager and the policy registry a governed call is refused
/// with `CallerNotAuthorized` exactly when the caller is neither the owner nor
/// the accepted governance.
pub proof fn law_governed_calls_need_governance_or_owner(
    am: AssetManagerView,
    pr: PolicyRegistryView,
    caller: Seq<u8>,
    token_id: Seq<u8>,
    holder: Seq<u8>,
    text: Seq<u8>,
    keys: Seq<Seq<u8>>,
    round: u64,
    flag: bool,
)
    requires
        am.holder_version(token_id, holder) < u64::MAX,
        pr.policy_version(token_id) < u64::MAX,
    ensures
        (am.register_asset(caller, token_id, text, text, text) is Err) <==> (caller != am.owner
            && am.governance != Some(caller)),
        (am.sync_holder_compliance(
            caller,
            token_id,
            holder,
            text,
            text,
            text,
            text,
            round,
            flag,
            flag,
            flag,
        ) is Err) <==> (caller != am.owner && am.governance != Some(caller)),
        (caller != am.owner && am.governance != Some(caller)) ==> am.register_asset(
            caller,
            token_id,
            text,
            text,
            text,
        ) == Err::<AssetManagerView, ContractError>(ContractError::CallerNotAuthorized),
        (caller != pr.owner && pr.governance != Some(caller)) ==> pr.set_token_policy(
            caller,
            token_id,
            flag,
            flag,
            flag,
            flag,
            keys,
            keys,
        ) == Err::<PolicyRegistryView, ContractError>(ContractError::CallerNotAuthorized),
        (caller == pr.owner || pr.governance == Some(caller)) ==> pr.set_token_policy(
            caller,
            token_id,
            flag,
            flag,
            flag,
            flag,
            Seq::empty(),
            Seq::empty(),
        ) is Ok,
{
}

/// In the identity registry a registration is refused exactly when the
/// caller is neither the owner nor the governance; a fresh registration holds
/// the given legal fields, `pending` for both statuses and no investor class.
pub proof fn law_identity_registration_fields(
    s: IdentityRegistryView,
    caller: Seq<u8>,
    subject: Seq<u8>,
    legal_name: Seq<u8>,
    jurisdiction_code: Seq<u8>,
    registration_number: Seq<u8>,
    entity_type: Seq<u8>,
    block_round: u64,
)
    ensures
        (s.register_identity(
            caller,
            subject,
            legal_name,
            jurisdiction_code,
            registration_number,
            entity_type,
            block_round,
        ) is Err) <==> (caller != s.owner && caller != s.governance),
        s.register_identity(
            caller,
            subject,
            legal_name,
            jurisdiction_code,
            registration_number,
            entity_type,
            block_round,
        ) matches Ok(s1) ==> {
            let r = s1.identities[subject];
            &&& s1.identities.contains_key(subject)
            &&& r.legal_name == legal_name
            &&& r.jurisdiction_code == jurisdiction_code
            &&& r.registration_number == registration_number
            &&& r.entity_type == entity_type
            &&& r.kyc_status == "pending".spec_bytes()
            &&& r.aml_status == "pending".spec_bytes()
            &&& r.investor_class.len() == 0
            &&& (block_round as int) + 10000 <= u64::MAX ==> r.expiry_round == block_round + 10000
            &&& (block_round as int) + 10000 > u64::MAX ==> r.expiry_round == u64::MAX
        },
{
}

/// The auditor alone records attestations; a recorded attestation holds each
/// argument in its own field and the round of the call.
pub proof fn law_attestation_records_arguments(
    s: AttestationView,
    caller: Seq<u8>,
    token_id: Seq<u8>,
    subject: Seq<u8>,
    attestation_type: Seq<u8>,
    evidence_hash: Seq<u8>,
    approved: bool,
    block_round: u64,
)
    ensures
        (s.record_attestation(
            caller,
            token_id,
            subject,
            attestation_type,
            evidence_hash,
            approved,
            block_round,
        ) is Err) <==> caller != s.auditor,
        caller == s.auditor ==> (s.record_attestation(
            caller,
            token_id,
            subject,
            attestation_type,
            evidence_hash,
            approved,
            block_round,
        ) matches Ok(s1) && {
            let r = s1.attestations[holder_key(token_id, subject)];
            &&& s1.attestations.contains_key(holder_key(token_id, subject))
            &&& r.token_id == token_id
            &&& r.subject == subject
            &&& r.attestation_type == attestation_type
            &&& r.evidence_hash == evidence_hash
            &&& r.approved == approved
            &&& r.attested_round == block_round
        }),
{
}

/// Each successful governed change logs one event naming what changed: the
/// proposed or accepted governance, the registered asset with its policy id,
/// or the token policy with its flags and new version.
pub proof fn law_changes_are_logged(
    am: AssetManagerView,
    pr: PolicyRegistryView,
    governance: Seq<u8>,
    token_id: Seq<u8>,
    carrier_type: Seq<u8>,
    asset_class: Seq<u8>,
    policy_id: Seq<u8>,
    drwa_enabled: bool,
    global_pause: bool,
    strict_auditor_mode: bool,
)
    requires
        pr.policy_version(token_id) < u64::MAX,
    ensures
        am.set_governance(am.owner, governance) matches Ok(s) ==> s.events == am.events.push(
            DrwaEventView::GovernanceProposed { governance },
        ),
        am.accept_governance(governance) matches Ok(s) ==> s.events == am.events.push(
            DrwaEventView::GovernanceAccepted { governance },
        ),
        am.register_asset(am.owner, token_id, carrier_type, asset_class, policy_id) matches Ok(s)
            && s.events == am.events.push(
            DrwaEventView::AssetRegistered { token_id, policy_id, regulated: true },
        ),
        pr.set_token_policy(
            pr.owner,
            token_id,
            drwa_enabled,
            global_pause,
            strict_auditor_mode,
            false,
            Seq::empty(),
            Seq::empty(),
        ) matches Ok(s) && s.events == pr.events.push(
            DrwaEventView::TokenPolicy {
                token_id,
                drwa_enabled,
                global_pause,
                strict_auditor_mode,
                token_policy_version: (pr.policy_version(token_id) + 1) as u64,
            },
        ),
{
}

} // verus!
