//! Appending an event to the chain of an anchor.

use crate::errors::SatorAnchorError;
use crate::events::{EventAppended, EventAppendedView};
use crate::hashing::chain_step_of;
use crate::state::{slot_view, AnchorView, Identity, IncidentAnchor};
use vstd::prelude::*;

verus! {

/// What an append works on.
pub struct AppendEvent {
    /// What is stored for the incident: its anchor, or nothing.
    pub anchor: Option<IncidentAnchor>,
    /// Who signed the request.
    pub operator: Identity,
}

/// The anchor after an event was appended at time `now` that moved the
/// chain head to `new_head`: the count grows by one, and nothing else
/// changes but the time of the last change.
pub open spec fn appended(anchor: AnchorView, new_head: Seq<u8>, now: i64) -> AnchorView {
    AnchorView {
        event_chain_head: new_head,
        event_count: (anchor.event_count + 1) as u32,
        updated_at: now,
        ..anchor
    }
}

/// What an append does when the new chain head is `new_head`: the anchor
/// that it leaves, or the reason for which it is refused.
pub open spec fn append_with_head_outcome(
    stored: Option<AnchorView>,
    signer: Seq<u8>,
    new_head: Seq<u8>,
    now: i64,
) -> Result<AnchorView, SatorAnchorError> {
    match stored {
        None => Err(SatorAnchorError::AnchorNotFound),
        Some(anchor) => if signer != anchor.operator {
            Err(SatorAnchorError::Unauthorized)
        } else if anchor.event_count == u32::MAX {
            Err(SatorAnchorError::EventCountOverflow)
        } else {
            Ok(appended(anchor, new_head, now))
        },
    }
}

/// What an append of `event_hash` does: the new chain head is the digest of
/// the current head followed by `event_hash`.
pub open spec fn append_event_outcome(
    stored: Option<AnchorView>,
    signer: Seq<u8>,
    event_hash: Seq<u8>,
    now: i64,
) -> Result<AnchorView, SatorAnchorError> {
    match stored {
        None => Err(SatorAnchorError::AnchorNotFound),
        Some(anchor) => append_with_head_outcome(
            stored,
            signer,
            chain_step_of(anchor.event_chain_head, event_hash),
            now,
        ),
    }
}

/// The notice of an append that left the anchor `after`.
pub open spec fn event_appended(after: AnchorView, event_hash: Seq<u8>, now: i64)
    -> EventAppendedView {
    EventAppendedView {
        incident_id: after.incident_id,
        event_hash,
        new_chain_head: after.event_chain_head,
        event_count: after.event_count,
        timestamp: now,
    }
}

/// Records an appended event whose chain head has been computed: checks
/// that the append is allowed, then stores `new_head`, counts the event and
/// stamps the change.
///
/// `handler` is this function with `new_head` computed from the stored
/// head and `event_hash`. A refused append leaves `ctx` as it was.
pub fn append_with_head(
    ctx: &mut AppendEvent,
    event_hash: [u8; 32],
    new_head: [u8; 32],
    now: i64,
) -> (result: Result<EventAppended, SatorAnchorError>)
    ensures
        final(ctx).operator == old(ctx).operator,
        match append_with_head_outcome(
            slot_view(old(ctx).anchor),
            old(ctx).operator@,
            new_head@,
            now,
        ) {
            Ok(after) => {
                &&& slot_view(final(ctx).anchor) == Some(after)
                &&& result is Ok
                &&& result->Ok_0@ == event_appended(after, event_hash@, now)
            },
            Err(reason) => {
                &&& result is Err
                &&& result->Err_0 == reason
                &&& *final(ctx) == *old(ctx)
            },
        },
{
    match &mut ctx.anchor {
        None => Err(SatorAnchorError::AnchorNotFound),
        Some(anchor) => {
            if !anchor.is_operator(&ctx.operator) {
                return Err(SatorAnchorError::Unauthorized);
            }
            let event_count = match anchor.event_count.checked_add(1) {
                Some(count) => count,
                None => {
                    return Err(SatorAnchorError::EventCountOverflow);
                },
            };
            anchor.event_chain_head = new_head;
            anchor.event_count = event_count;
            anchor.updated_at = now;
            Ok(
                EventAppended {
                    incident_id: anchor.incident_id,
                    event_hash,
                    new_chain_head: new_head,
                    event_count,
                    timestamp: now,
                },
            )
        },
    }
}

/// Appends `event_hash` to the event chain of the anchor in `ctx`.
///
/// Only the operator who owns the anchor may append. A refused append
/// leaves `ctx` as it was.
pub fn handler(ctx: &mut AppendEvent, event_hash: [u8; 32], now: i64) -> (result: Result<
    EventAppended,
    SatorAnchorError,
>)
    ensures
        final(ctx).operator == old(ctx).operator,
        match append_event_outcome(
            slot_view(old(ctx).anchor),
            old(ctx).operator@,
            event_hash@,
            now,
        ) {
            Ok(after) => {
                &&& slot_view(final(ctx).anchor) == Some(after)
                &&& result is Ok
                &&& result->Ok_0@ == event_appended(after, event_hash@, now)
            },
            Err(reason) => {
                &&& result is Err
                &&& result->Err_0 == reason
                &&& *final(ctx) == *old(ctx)
            },
        },
{
    let new_head = match &ctx.anchor {
        None => {
            return Err(SatorAnchorError::AnchorNotFound);
        },
        Some(anchor) => anchor.compute_new_event_head(&event_hash),
    };
    append_with_head(ctx, event_hash, new_head, now)
}

} // verus!
