//! Replacing artifact hashes of an anchor.

use crate::errors::SatorAnchorError;
use crate::events::{ArtifactsUpdated, ArtifactsUpdatedView};
use crate::hashing::{bundle_root, bundle_root_of, chain_step_of};
use crate::state::{slot_view, AnchorView, Identity, IncidentAnchor};
use vstd::prelude::*;

verus! {

/// What an update works on.
pub struct UpdateArtifacts {
    /// What is stored for the incident: its anchor, or nothing.
    pub anchor: Option<IncidentAnchor>,
    /// Who signed the request.
    pub operator: Identity,
}

/// The bytes of a hash that may be absent.
pub open spec fn hash_view(hash: Option<[u8; 32]>) -> Option<Seq<u8>> {
    match hash {
        Some(hash) => Some(hash@),
        None => None,
    }
}

/// The characters of a URI that may be absent.
pub open spec fn uri_view(uri: Option<String>) -> Option<Seq<char>> {
    match uri {
        Some(uri) => Some(uri@),
        None => None,
    }
}

/// The six artifact hashes after an update: each one that is supplied
/// replaces the current one, the others stay.
pub open spec fn merged(current: Seq<Seq<u8>>, supplied: Seq<Option<Seq<u8>>>) -> Seq<Seq<u8>> {
    Seq::new(6, |i: int| merged_hash(current[i], supplied[i]))
}

/// The hash that stands after an update where `supplied` was given for it:
/// the supplied one, or the current one if none was supplied.
pub open spec fn merged_hash(current: Seq<u8>, supplied: Option<Seq<u8>>) -> Seq<u8> {
    match supplied {
        Some(hash) => hash,
        None => current,
    }
}

/// The anchor after an update at time `now` for which the bundle root of
/// the six hashes that it leaves is `new_bundle_root` and the new chain
/// head is `new_head`.
///
/// The update counts as one event. A URI that is not supplied stays.
pub open spec fn updated_with_digests(
    anchor: AnchorView,
    supplied: Seq<Option<Seq<u8>>>,
    new_bundle_root: Seq<u8>,
    new_head: Seq<u8>,
    packet_uri: Option<Seq<char>>,
    now: i64,
) -> AnchorView {
    AnchorView {
        artifact_hashes: merged(anchor.artifact_hashes, supplied),
        bundle_root_hash: new_bundle_root,
        event_chain_head: new_head,
        event_count: (anchor.event_count + 1) as u32,
        packet_uri: match packet_uri {
            Some(uri) => uri,
            None => anchor.packet_uri,
        },
        updated_at: now,
        ..anchor
    }
}

/// The anchor after an update at time `now`.
///
/// The bundle root is the digest of the six hashes as they stand after the
/// update, and the update is itself an event of the chain: the head is the
/// digest of the current head followed by `change_event_hash`.
pub open spec fn updated(
    anchor: AnchorView,
    supplied: Seq<Option<Seq<u8>>>,
    change_event_hash: Seq<u8>,
    packet_uri: Option<Seq<char>>,
    now: i64,
) -> AnchorView {
    updated_with_digests(
        anchor,
        supplied,
        bundle_root_of(merged(anchor.artifact_hashes, supplied)),
        chain_step_of(anchor.event_chain_head, change_event_hash),
        packet_uri,
        now,
    )
}

/// What an update does when the digests that it stores are
/// `new_bundle_root` and `new_head`: the anchor that it leaves, or the
/// reason for which it is refused.
pub open spec fn update_with_digests_outcome(
    stored: Option<AnchorView>,
    signer: Seq<u8>,
    supplied: Seq<Option<Seq<u8>>>,
    new_bundle_root: Seq<u8>,
    new_head: Seq<u8>,
    packet_uri: Option<Seq<char>>,
    now: i64,
) -> Result<AnchorView, SatorAnchorError> {
    match stored {
        None => Err(SatorAnchorError::AnchorNotFound),
        Some(anchor) => if signer != anchor.operator {
            Err(SatorAnchorError::Unauthorized)
        } else if packet_uri is Some && packet_uri->0.len() > IncidentAnchor::MAX_URI_LEN {
            Err(SatorAnchorError::PacketUriTooLong)
        } else if anchor.event_count == u32::MAX {
            Err(SatorAnchorError::EventCountOverflow)
        } else {
            Ok(updated_with_digests(anchor, supplied, new_bundle_root, new_head, packet_uri, now))
        },
    }
}

/// What an update does: the anchor that it leaves, or the reason for which
/// it is refused.
pub open spec fn update_artifacts_outcome(
    stored: Option<AnchorView>,
    signer: Seq<u8>,
    supplied: Seq<Option<Seq<u8>>>,
    change_event_hash: Seq<u8>,
    packet_uri: Option<Seq<char>>,
    now: i64,
) -> Result<AnchorView, SatorAnchorError> {
    match stored {
        None => Err(SatorAnchorError::AnchorNotFound),
        Some(anchor) => update_with_digests_outcome(
            stored,
            signer,
            supplied,
            bundle_root_of(merged(anchor.artifact_hashes, supplied)),
            chain_step_of(anchor.event_chain_head, change_event_hash),
            packet_uri,
            now,
        ),
    }
}

/// The notice of an update that turned the anchor `before` into `after`.
pub open spec fn artifacts_updated(before: AnchorView, after: AnchorView, now: i64)
    -> ArtifactsUpdatedView {
    ArtifactsUpdatedView {
        incident_id: after.incident_id,
        operator: after.operator,
        old_bundle_root: before.bundle_root_hash,
        new_bundle_root: after.bundle_root_hash,
        packet_uri: after.packet_uri,
        timestamp: now,
    }
}

/// Picks the hash that stands after an update: the supplied one, or the
/// current one if none is supplied.
pub fn merge_hash(current: [u8; 32], supplied: Option<[u8; 32]>) -> (hash: [u8; 32])
    ensures
        hash == match supplied {
            Some(given) => given,
            None => current,
        },
        hash@ == merged_hash(current@, hash_view(supplied)),
{
    match supplied {
        Some(given) => given,
        None => current,
    }
}

/// Stores an update whose digests have been computed: checks that the
/// update is allowed, then replaces the hashes that are supplied, stores
/// `new_bundle_root` and `new_head`, counts the event and stamps the change.
///
/// `handler` is this function with `new_bundle_root` computed from the six
/// hashes as they stand after the update, and `new_head` from the stored
/// head and the change event hash. A refused update leaves `ctx` as it was.
pub fn update_with_digests(
    ctx: &mut UpdateArtifacts,
    incident_core_hash: Option<[u8; 32]>,
    evidence_set_hash: Option<[u8; 32]>,
    contradictions_hash: Option<[u8; 32]>,
    trust_receipt_hash: Option<[u8; 32]>,
    operator_decisions_hash: Option<[u8; 32]>,
    timeline_hash: Option<[u8; 32]>,
    new_bundle_root: [u8; 32],
    new_head: [u8; 32],
    packet_uri: Option<String>,
    now: i64,
) -> (result: Result<ArtifactsUpdated, SatorAnchorError>)
    ensures
        final(ctx).operator == old(ctx).operator,
        match update_with_digests_outcome(
            slot_view(old(ctx).anchor),
            old(ctx).operator@,
            seq![
                hash_view(incident_core_hash),
                hash_view(evidence_set_hash),
                hash_view(contradictions_hash),
                hash_view(trust_receipt_hash),
                hash_view(operator_decisions_hash),
                hash_view(timeline_hash),
            ],
            new_bundle_root@,
            new_head@,
            uri_view(packet_uri),
            now,
        ) {
            Ok(after) => {
                &&& slot_view(final(ctx).anchor) == Some(after)
                &&& result is Ok
                &&& result->Ok_0@ == artifacts_updated(old(ctx).anchor->0@, after, now)
            },
            Err(reason) => {
                &&& result is Err
                &&& result->Err_0 == reason
                &&& *final(ctx) == *old(ctx)
            },
        },
{
    match &mut ctx.anchor {
        None => Err(SatorAnchorError::AnchorNotFound),
        Some(anchor) => {
            if !anchor.is_operator(&ctx.operator) {
                return Err(SatorAnchorError::Unauthorized);
            }
            if let Some(uri) = &packet_uri {
                if uri.as_str().unicode_len() > IncidentAnchor::MAX_URI_LEN {
                    return Err(SatorAnchorError::PacketUriTooLong);
                }
            }
            let event_count = match anchor.event_count.checked_add(1) {
                Some(count) => count,
                None => {
                    return Err(SatorAnchorError::EventCountOverflow);
                },
            };
            let ghost before = anchor@;
            let old_bundle_root = anchor.bundle_root_hash;
            anchor.incident_core_hash = merge_hash(anchor.incident_core_hash, incident_core_hash);
            anchor.evidence_set_hash = merge_hash(anchor.evidence_set_hash, evidence_set_hash);
            anchor.contradictions_hash = merge_hash(anchor.contradictions_hash, contradictions_hash);
            anchor.trust_receipt_hash = merge_hash(anchor.trust_receipt_hash, trust_receipt_hash);
            anchor.operator_decisions_hash = merge_hash(
                anchor.operator_decisions_hash,
                operator_decisions_hash,
            );
            anchor.timeline_hash = merge_hash(anchor.timeline_hash, timeline_hash);
            if let Some(uri) = packet_uri {
                anchor.packet_uri = uri;
            }
            anchor.bundle_root_hash = new_bundle_root;
            anchor.event_chain_head = new_head;
            anchor.event_count = event_count;
            anchor.updated_at = now;
            proof {
                let supplied = seq![
                    hash_view(incident_core_hash),
                    hash_view(evidence_set_hash),
                    hash_view(contradictions_hash),
                    hash_view(trust_receipt_hash),
                    hash_view(operator_decisions_hash),
                    hash_view(timeline_hash),
                ];
                assert(anchor@.artifact_hashes =~= merged(before.artifact_hashes, supplied));
            }
            Ok(
                ArtifactsUpdated {
                    incident_id: anchor.incident_id,
                    operator: ctx.operator,
                    old_bundle_root,
                    new_bundle_root,
                    packet_uri: anchor.packet_uri.clone(),
                    timestamp: now,
                },
            )
        },
    }
}

/// Replaces the artifact hashes that are supplied, recomputes the bundle
/// root and appends `change_event_hash` to the event chain.
///
/// A hash or a URI given as `None` keeps its current value. Only the
/// operator who owns the anchor may update it. A refused update leaves `ctx`
/// as it was.
pub fn handler(
    ctx: &mut UpdateArtifacts,
    incident_core_hash: Option<[u8; 32]>,
    evidence_set_hash: Option<[u8; 32]>,
    contradictions_hash: Option<[u8; 32]>,
    trust_receipt_hash: Option<[u8; 32]>,
    operator_decisions_hash: Option<[u8; 32]>,
    timeline_hash: Option<[u8; 32]>,
    change_event_hash: [u8; 32],
    packet_uri: Option<String>,
    now: i64,
) -> (result: Result<ArtifactsUpdated, SatorAnchorError>)
    ensures
        final(ctx).operator == old(ctx).operator,
        match update_artifacts_outcome(
            slot_view(old(ctx).anchor),
            old(ctx).operator@,
            seq![
                hash_view(incident_core_hash),
                hash_view(evidence_set_hash),
                hash_view(contradictions_hash),
                hash_view(trust_receipt_hash),
                hash_view(operator_decisions_hash),
                hash_view(timeline_hash),
            ],
            change_event_hash@,
            uri_view(packet_uri),
            now,
        ) {
            Ok(after) => {
                &&& slot_view(final(ctx).anchor) == Some(after)
                &&& result is Ok
                &&& result->Ok_0@ == artifacts_updated(old(ctx).anchor->0@, after, now)
            },
            Err(reason) => {
                &&& result is Err
                &&& result->Err_0 == reason
                &&& *final(ctx) == *old(ctx)
            },
        },
{
    let (new_bundle_root, new_head) = match &ctx.anchor {
        None => {
            return Err(SatorAnchorError::AnchorNotFound);
        },
        Some(anchor) => {
            let new_bundle_root = bundle_root(
                &merge_hash(anchor.incident_core_hash, incident_core_hash),
                &merge_hash(anchor.evidence_set_hash, evidence_set_hash),
                &merge_hash(anchor.contradictions_hash, contradictions_hash),
                &merge_hash(anchor.trust_receipt_hash, trust_receipt_hash),
                &merge_hash(anchor.operator_decisions_hash, operator_decisions_hash),
                &merge_hash(anchor.timeline_hash, timeline_hash),
            );
            proof {
                let supplied = seq![
                    hash_view(incident_core_hash),
                    hash_view(evidence_set_hash),
                    hash_view(contradictions_hash),
                    hash_view(trust_receipt_hash),
                    hash_view(operator_decisions_hash),
                    hash_view(timeline_hash),
                ];
                assert(seq![
                    merged_hash(anchor.incident_core_hash@, hash_view(incident_core_hash)),
                    merged_hash(anchor.evidence_set_hash@, hash_view(evidence_set_hash)),
                    merged_hash(anchor.contradictions_hash@, hash_view(contradictions_hash)),
                    merged_hash(anchor.trust_receipt_hash@, hash_view(trust_receipt_hash)),
                    merged_hash(
                        anchor.operator_decisions_hash@,
                        hash_view(operator_decisions_hash),
                    ),
                    merged_hash(anchor.timeline_hash@, hash_view(timeline_hash)),
                ] =~= merged(anchor@.artifact_hashes, supplied));
            }
            (new_bundle_root, anchor.compute_new_event_head(&change_event_hash))
        },
    };
    update_with_digests(
        ctx,
        incident_core_hash,
        evidence_set_hash,
        contradictions_hash,
        trust_receipt_hash,
        operator_decisions_hash,
        timeline_hash,
        new_bundle_root,
        new_head,
        packet_uri,
        now,
    )
}

} // verus!
