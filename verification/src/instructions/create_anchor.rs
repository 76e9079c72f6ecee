//! Creating the anchor of an incident.

use crate::errors::SatorAnchorError;
use crate::events::{AnchorCreated, AnchorCreatedView};
use crate::hashing::{bundle_root, bundle_root_of};
use crate::state::{role_of, slot_view, AnchorView, Identity, IncidentAnchor};
use vstd::prelude::*;

verus! {

/// What a creation works on.
pub struct CreateAnchor {
    /// What is stored for the incident: nothing, before the anchor is
    /// created.
    pub anchor: Option<IncidentAnchor>,
    /// Who signed the request, and will own the anchor.
    pub operator: Identity,
    /// Bump seed of the address under which the anchor is stored.
    pub bump: u8,
}

/// The anchor that a creation leaves when the bundle root of the six
/// hashes is `bundle_root_hash`.
///
/// The chain starts at the first event hash itself, which counts as one
/// event, and the anchor waits for approval exactly if an employee made it.
pub open spec fn created_with_root(
    operator: Seq<u8>,
    bump: u8,
    incident_id: u64,
    artifact_hashes: Seq<Seq<u8>>,
    bundle_root_hash: Seq<u8>,
    initial_event_hash: Seq<u8>,
    operator_role: u8,
    packet_uri: Seq<char>,
    now: i64,
) -> AnchorView {
    AnchorView {
        operator,
        incident_id,
        artifact_hashes,
        bundle_root_hash,
        event_chain_head: initial_event_hash,
        event_count: 1,
        operator_role,
        supervisor: None,
        requires_approval: role_of(operator_role).needs_approval(),
        approval_timestamp: None,
        packet_uri,
        created_at: now,
        updated_at: now,
        bump,
    }
}

/// The anchor that a creation leaves: its bundle root is the digest of the
/// six hashes.
pub open spec fn created(
    operator: Seq<u8>,
    bump: u8,
    incident_id: u64,
    artifact_hashes: Seq<Seq<u8>>,
    initial_event_hash: Seq<u8>,
    operator_role: u8,
    packet_uri: Seq<char>,
    now: i64,
) -> AnchorView {
    created_with_root(
        operator,
        bump,
        incident_id,
        artifact_hashes,
        bundle_root_of(artifact_hashes),
        initial_event_hash,
        operator_role,
        packet_uri,
        now,
    )
}

/// Why a creation is refused, if it is: an anchor is stored already, the
/// URI is too long, or the role is unknown, in this order.
pub open spec fn create_anchor_refusal(
    stored: Option<AnchorView>,
    operator_role: u8,
    packet_uri: Seq<char>,
) -> Option<SatorAnchorError> {
    if stored is Some {
        Some(SatorAnchorError::AnchorAlreadyExists)
    } else if packet_uri.len() > IncidentAnchor::MAX_URI_LEN {
        Some(SatorAnchorError::PacketUriTooLong)
    } else if operator_role > 2 {
        Some(SatorAnchorError::InvalidOperatorRole)
    } else {
        None
    }
}

/// What a creation does when the bundle root of the six hashes is
/// `bundle_root_hash`: the anchor that it leaves, or the reason for which it
/// is refused.
pub open spec fn create_with_root_outcome(
    stored: Option<AnchorView>,
    operator: Seq<u8>,
    bump: u8,
    incident_id: u64,
    artifact_hashes: Seq<Seq<u8>>,
    bundle_root_hash: Seq<u8>,
    initial_event_hash: Seq<u8>,
    operator_role: u8,
    packet_uri: Seq<char>,
    now: i64,
) -> Result<AnchorView, SatorAnchorError> {
    match create_anchor_refusal(stored, operator_role, packet_uri) {
        Some(reason) => Err(reason),
        None => Ok(
            created_with_root(
                operator,
                bump,
                incident_id,
                artifact_hashes,
                bundle_root_hash,
                initial_event_hash,
                operator_role,
                packet_uri,
                now,
            ),
        ),
    }
}

/// What a creation does: the anchor that it leaves, or the reason for which
/// it is refused.
pub open spec fn create_anchor_outcome(
    stored: Option<AnchorView>,
    operator: Seq<u8>,
    bump: u8,
    incident_id: u64,
    artifact_hashes: Seq<Seq<u8>>,
    initial_event_hash: Seq<u8>,
    operator_role: u8,
    packet_uri: Seq<char>,
    now: i64,
) -> Result<AnchorView, SatorAnchorError> {
    create_with_root_outcome(
        stored,
        operator,
        bump,
        incident_id,
        artifact_hashes,
        bundle_root_of(artifact_hashes),
        initial_event_hash,
        operator_role,
        packet_uri,
        now,
    )
}

/// The notice of a creation that left the anchor `after`.
pub open spec fn anchor_created(after: AnchorView, now: i64) -> AnchorCreatedView {
    AnchorCreatedView {
        incident_id: after.incident_id,
        operator: after.operator,
        operator_role: after.operator_role,
        bundle_root_hash: after.bundle_root_hash,
        packet_uri: after.packet_uri,
        timestamp: now,
    }
}

/// Stores a new anchor whose bundle root has been computed: checks that the
/// creation is allowed, then fills in every field.
///
/// `handler` is this function with `bundle_root_hash` computed from the six
/// hashes. A refused creation leaves `ctx` as it was.
pub fn create_with_root(
    ctx: &mut CreateAnchor,
    incident_id: u64,
    incident_core_hash: [u8; 32],
    evidence_set_hash: [u8; 32],
    contradictions_hash: [u8; 32],
    trust_receipt_hash: [u8; 32],
    operator_decisions_hash: [u8; 32],
    timeline_hash: [u8; 32],
    bundle_root_hash: [u8; 32],
    initial_event_hash: [u8; 32],
    operator_role: u8,
    packet_uri: String,
    now: i64,
) -> (result: Result<AnchorCreated, SatorAnchorError>)
    ensures
        final(ctx).operator == old(ctx).operator,
        final(ctx).bump == old(ctx).bump,
        match create_with_root_outcome(
            slot_view(old(ctx).anchor),
            old(ctx).operator@,
            old(ctx).bump,
            incident_id,
            seq![
                incident_core_hash@,
                evidence_set_hash@,
                contradictions_hash@,
                trust_receipt_hash@,
                operator_decisions_hash@,
                timeline_hash@,
            ],
            bundle_root_hash@,
            initial_event_hash@,
            operator_role,
            packet_uri@,
            now,
        ) {
            Ok(after) => {
                &&& slot_view(final(ctx).anchor) == Some(after)
                &&& result is Ok
                &&& result->Ok_0@ == anchor_created(after, now)
            },
            Err(reason) => {
                &&& result is Err
                &&& result->Err_0 == reason
                &&& *final(ctx) == *old(ctx)
            },
        },
{
    if ctx.anchor.is_some() {
        return Err(SatorAnchorError::AnchorAlreadyExists);
    }
    if packet_uri.as_str().unicode_len() > IncidentAnchor::MAX_URI_LEN {
        return Err(SatorAnchorError::PacketUriTooLong);
    }
    if operator_role > 2 {
        return Err(SatorAnchorError::InvalidOperatorRole);
    }
    let anchor = IncidentAnchor {
        operator: ctx.operator,
        incident_id,
        incident_core_hash,
        evidence_set_hash,
        contradictions_hash,
        trust_receipt_hash,
        operator_decisions_hash,
        timeline_hash,
        bundle_root_hash,
        event_chain_head: initial_event_hash,
        event_count: 1,
        operator_role,
        supervisor: None,
        requires_approval: operator_role == 0,
        approval_timestamp: None,
        packet_uri: packet_uri.clone(),
        created_at: now,
        updated_at: now,
        bump: ctx.bump,
    };
    ctx.anchor = Some(anchor);
    Ok(
        AnchorCreated {
            incident_id,
            operator: ctx.operator,
            operator_role,
            bundle_root_hash,
            packet_uri,
            timestamp: now,
        },
    )
}

/// Creates the anchor of incident `incident_id`, owned by `ctx.operator`.
///
/// The six artifact hashes are given in canonical order. A refused creation
/// leaves `ctx` as it was.
pub fn handler(
    ctx: &mut CreateAnchor,
    incident_id: u64,
    incident_core_hash: [u8; 32],
    evidence_set_hash: [u8; 32],
    contradictions_hash: [u8; 32],
    trust_receipt_hash: [u8; 32],
    operator_decisions_hash: [u8; 32],
    timeline_hash: [u8; 32],
    initial_event_hash: [u8; 32],
    operator_role: u8,
    packet_uri: String,
    now: i64,
) -> (result: Result<AnchorCreated, SatorAnchorError>)
    ensures
        final(ctx).operator == old(ctx).operator,
        final(ctx).bump == old(ctx).bump,
        match create_anchor_outcome(
            slot_view(old(ctx).anchor),
            old(ctx).operator@,
            old(ctx).bump,
            incident_id,
            seq![
                incident_core_hash@,
                evidence_set_hash@,
                contradictions_hash@,
                trust_receipt_hash@,
                operator_decisions_hash@,
                timeline_hash@,
            ],
            initial_event_hash@,
            operator_role,
            packet_uri@,
            now,
        ) {
            Ok(after) => {
                &&& slot_view(final(ctx).anchor) == Some(after)
                &&& result is Ok
                &&& result->Ok_0@ == anchor_created(after, now)
            },
            Err(reason) => {
                &&& result is Err
                &&& result->Err_0 == reason
                &&& *final(ctx) == *old(ctx)
            },
        },
{
    let bundle_root_hash = bundle_root(
        &incident_core_hash,
        &evidence_set_hash,
        &contradictions_hash,
        &trust_receipt_hash,
        &operator_decisions_hash,
        &timeline_hash,
    );
    create_with_root(
        ctx,
        incident_id,
        incident_core_hash,
        evidence_set_hash,
        contradictions_hash,
        trust_receipt_hash,
        operator_decisions_hash,
        timeline_hash,
        bundle_root_hash,
        initial_event_hash,
        operator_role,
        packet_uri,
        now,
    )
}

} // verus!
