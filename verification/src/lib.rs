//! A tamper-evident integrity record for one incident: a bundle root that
//! commits to six artifact hashes, a rolling event chain, and the approval
//! state that goes with them.
//!
//! The four transitions below take what is stored for an incident together
//! with the identity that signed the request and the current time. Each one
//! either changes the stored anchor and returns the notice to publish, or
//! refuses and changes nothing.

pub mod errors;
pub mod events;
pub mod hashing;
pub mod history;
pub mod instructions;
pub mod state;

use crate::errors::SatorAnchorError;
use crate::events::{AnchorApproved, AnchorCreated, ArtifactsUpdated, EventAppended};
use crate::instructions::append_event::{append_event_outcome, event_appended, AppendEvent};
use crate::instructions::approve_anchor::{anchor_approved, approve_anchor_outcome, ApproveAnchor};
use crate::instructions::create_anchor::{anchor_created, create_anchor_outcome, CreateAnchor};
use crate::instructions::update_artifacts::{
    artifacts_updated, hash_view, update_artifacts_outcome, uri_view, UpdateArtifacts,
};
use crate::state::slot_view;
use vstd::prelude::*;

verus! {

/// Creates the anchor of an incident.
///
/// Refused with `AnchorAlreadyExists` if an anchor is stored for the
/// incident, with `PacketUriTooLong` if the URI has more than 200
/// characters, and with `InvalidOperatorRole` if the role is above 2.
pub fn create_anchor(
    ctx: &mut CreateAnchor,
    incident_id: u64,
    incident_core_hash: [u8; 32],
    evidence_set_hash: [u8; 32],
    contradictions_hash: [u8; 32],
    trust_receipt_hash: [u8; 32],
    operator_decisions_hash: [u8; 32],
    timeline_hash: [u8; 32],
    initial_event_hash: [u8; 32],
    operator_role: u8,
    packet_uri: String,
    now: i64,
) -> (result: Result<AnchorCreated, SatorAnchorError>)
    ensures
        final(ctx).operator == old(ctx).operator,
        final(ctx).bump == old(ctx).bump,
        match create_anchor_outcome(
            slot_view(old(ctx).anchor),
            old(ctx).operator@,
            old(ctx).bump,
            incident_id,
            seq![
                incident_core_hash@,
                evidence_set_hash@,
                contradictions_hash@,
                trust_receipt_hash@,
                operator_decisions_hash@,
                timeline_hash@,
            ],
            initial_event_hash@,
            operator_role,
            packet_uri@,
            now,
        ) {
            Ok(after) => {
                &&& slot_view(final(ctx).anchor) == Some(after)
                &&& result is Ok
                &&& result->Ok_0@ == anchor_created(after, now)
            },
            Err(reason) => {
                &&& result is Err
                &&& result->Err_0 == reason
                &&& *final(ctx) == *old(ctx)
            },
        },
{
    instructions::create_anchor::handler(
        ctx,
        incident_id,
        incident_core_hash,
        evidence_set_hash,
        contradictions_hash,
        trust_receipt_hash,
        operator_decisions_hash,
        timeline_hash,
        initial_event_hash,
        operator_role,
        packet_uri,
        now,
    )
}

/// Appends an event to the event chain: the new head is the digest of the
/// previous head followed by the event hash.
///
/// Refused with `AnchorNotFound` if no anchor is stored, with `Unauthorized`
/// if the signer does not own the anchor, and with `EventCountOverflow` if
/// the counter is at its maximum.
pub fn append_event(ctx: &mut AppendEvent, event_hash: [u8; 32], now: i64) -> (result: Result<
    EventAppended,
    SatorAnchorError,
>)
    ensures
        final(ctx).operator == old(ctx).operator,
        match append_event_outcome(
            slot_view(old(ctx).anchor),
            old(ctx).operator@,
            event_hash@,
            now,
        ) {
            Ok(after) => {
                &&& slot_view(final(ctx).anchor) == Some(after)
                &&& result is Ok
                &&& result->Ok_0@ == event_appended(after, event_hash@, now)
            },
            Err(reason) => {
                &&& result is Err
                &&& result->Err_0 == reason
                &&& *final(ctx) == *old(ctx)
            },
        },
{
    instructions::append_event::handler(ctx, event_hash, now)
}

/// Replaces the artifact hashes that are supplied, recomputes the bundle
/// root and chains the change as an event.
///
/// Refused with `AnchorNotFound` if no anchor is stored, with `Unauthorized`
/// if the signer does not own the anchor, with `PacketUriTooLong` if a URI
/// is supplied that has more than 200 characters, and with
/// `EventCountOverflow` if the counter is at its maximum.
pub fn update_artifacts(
    ctx: &mut UpdateArtifacts,
    incident_core_hash: Option<[u8; 32]>,
    evidence_set_hash: Option<[u8; 32]>,
    contradictions_hash: Option<[u8; 32]>,
    trust_receipt_hash: Option<[u8; 32]>,
    operator_decisions_hash: Option<[u8; 32]>,
    timeline_hash: Option<[u8; 32]>,
    change_event_hash: [u8; 32],
    packet_uri: Option<String>,
    now: i64,
) -> (result: Result<ArtifactsUpdated, SatorAnchorError>)
    ensures
        final(ctx).operator == old(ctx).operator,
        match update_artifacts_outcome(
            slot_view(old(ctx).anchor),
            old(ctx).operator@,
            seq![
                hash_view(incident_core_hash),
                hash_view(evidence_set_hash),
                hash_view(contradictions_hash),
                hash_view(trust_receipt_hash),
                hash_view(operator_decisions_hash),
                hash_view(timeline_hash),
            ],
            change_event_hash@,
            uri_view(packet_uri),
            now,
        ) {
            Ok(after) => {
                &&& slot_view(final(ctx).anchor) == Some(after)
                &&& result is Ok
                &&& result->Ok_0@ == artifacts_updated(old(ctx).anchor->0@, after, now)
            },
            Err(reason) => {
                &&& result is Err
                &&& result->Err_0 == reason
                &&& *final(ctx) == *old(ctx)
            },
        },
{
    instructions::update_artifacts::handler(
        ctx,
        incident_core_hash,
        evidence_set_hash,
        contradictions_hash,
        trust_receipt_hash,
        operator_decisions_hash,
        timeline_hash,
        change_event_hash,
        packet_uri,
        now,
    )
}

/// Approves an anchor that an employee created.
///
/// Refused with `AnchorNotFound` if no anchor is stored and with
/// `AlreadyApproved` if the anchor does not wait for approval.
pub fn approve_anchor(ctx: &mut ApproveAnchor, now: i64) -> (result: Result<
    AnchorApproved,
    SatorAnchorError,
>)
    ensures
        final(ctx).approver == old(ctx).approver,
        match approve_anchor_outcome(slot_view(old(ctx).anchor), old(ctx).approver@, now) {
            Ok(after) => {
                &&& slot_view(final(ctx).anchor) == Some(after)
                &&& result is Ok
                &&& result->Ok_0@ == anchor_approved(after, old(ctx).approver@, now)
            },
            Err(reason) => {
                &&& result is Err
                &&& result->Err_0 == reason
                &&& *final(ctx) == *old(ctx)
            },
        },
{
    instructions::approve_anchor::handler(ctx, now)
}

} // verus!
