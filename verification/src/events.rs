//! The events that the contracts log on success.
use vstd::prelude::*;

use crate::bytes::Address;

verus! {

/// An event logged by a contract call.
#[derive(Clone, Debug)]
pub enum DrwaEvent {
    /// `drwaGovernanceProposed`
    GovernanceProposed { governance: Address },
    /// `drwaGovernanceAccepted`
    GovernanceAccepted { governance: Address },
    /// `drwaAssetRegistered`
    AssetRegistered { token_id: Vec<u8>, policy_id: Vec<u8>, regulated: bool },
    /// `drwaTokenPolicy`
    TokenPolicy {
        token_id: Vec<u8>,
        drwa_enabled: bool,
        global_pause: bool,
        strict_auditor_mode: bool,
        token_policy_version: u64,
    },
    /// `drwaAuditorProposed`
    AuditorProposed { auditor: Address },
    /// `drwaAuditorAccepted`
    AuditorAccepted { auditor: Address },
    /// `mrvReportAnchored`
    ReportAnchored {
        report_id: Vec<u8>,
        public_tenant_id: Vec<u8>,
        public_farm_id: Vec<u8>,
        public_season_id: Vec<u8>,
        report_hash: Vec<u8>,
        hash_algo: Vec<u8>,
        canonicalization: Vec<u8>,
        methodology_version: u64,
        anchored_at: u64,
    },
}

/// The content of an event.
pub enum DrwaEventView {
    GovernanceProposed { governance: Seq<u8> },
    GovernanceAccepted { governance: Seq<u8> },
    AssetRegistered { token_id: Seq<u8>, policy_id: Seq<u8>, regulated: bool },
    TokenPolicy {
        token_id: Seq<u8>,
        drwa_enabled: bool,
        global_pause: bool,
        strict_auditor_mode: bool,
        token_policy_version: u64,
    },
    AuditorProposed { auditor: Seq<u8> },
    AuditorAccepted { auditor: Seq<u8> },
    ReportAnchored {
        report_id: Seq<u8>,
        public_tenant_id: Seq<u8>,
        public_farm_id: Seq<u8>,
        public_season_id: Seq<u8>,
        report_hash: Seq<u8>,
        hash_algo: Seq<u8>,
        canonicalization: Seq<u8>,
        methodology_version: u64,
        anchored_at: u64,
    },
}

impl View for DrwaEvent {
    type V = DrwaEventView;

    open spec fn view(&self) -> DrwaEventView {
        match self {
            DrwaEvent::GovernanceProposed { governance } => DrwaEventView::GovernanceProposed {
                governance: governance@,
            },
            DrwaEvent::GovernanceAccepted { governance } => DrwaEventView::GovernanceAccepted {
                governance: governance@,
            },
            DrwaEvent::AssetRegistered { token_id, policy_id, regulated } =>
                DrwaEventView::AssetRegistered {
                token_id: token_id@,
                policy_id: policy_id@,
                regulated: *regulated,
            },
            DrwaEvent::TokenPolicy {
                token_id,
                drwa_enabled,
                global_pause,
                strict_auditor_mode,
                token_policy_version,
            } => DrwaEventView::TokenPolicy {
                token_id: token_id@,
                drwa_enabled: *drwa_enabled,
                global_pause: *global_pause,
                strict_auditor_mode: *strict_auditor_mode,
                token_policy_version: *token_policy_version,
            },
            DrwaEvent::AuditorProposed { auditor } => DrwaEventView::AuditorProposed {
                auditor: auditor@,
            },
            DrwaEvent::AuditorAccepted { auditor } => DrwaEventView::AuditorAccepted {
                auditor: auditor@,
            },
            DrwaEvent::ReportAnchored {
                report_id,
                public_tenant_id,
                public_farm_id,
                public_season_id,
                report_hash,
                hash_algo,
                canonicalization,
                methodology_version,
                anchored_at,
            } => DrwaEventView::ReportAnchored {
                report_id: report_id@,
                public_tenant_id: public_tenant_id@,
                public_farm_id: public_farm_id@,
                public_season_id: public_season_id@,
                report_hash: report_hash@,
                hash_algo: hash_algo@,
                canonicalization: canonicalization@,
                methodology_version: *methodology_version,
                anchored_at: *anchored_at,
            },
        }
    }
}

/// The contents of a list of events.
pub open spec fn events_view(events: Seq<DrwaEvent>) -> Seq<DrwaEventView> {
    events.map_values(|e: DrwaEvent| e@)
}

/// Appends an event to a log.
pub fn log_event(log: &mut Vec<DrwaEvent>, event: DrwaEvent)
    ensures
        events_view(final(log)@) == events_view(old(log)@).push(event@),
{
    let ghost ev = event@;
    log.push(event);
    assert(events_view(log@) =~= events_view(old(log)@).push(ev));
}

} // verus!
