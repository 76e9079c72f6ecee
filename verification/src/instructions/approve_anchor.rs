//! Approving an anchor that waits for approval.

use crate::errors::SatorAnchorError;
use crate::events::{AnchorApproved, AnchorApprovedView};
use crate::state::{slot_view, AnchorView, Identity, IncidentAnchor};
use vstd::prelude::*;

verus! {

/// What an approval works on.
pub struct ApproveAnchor {
    /// What is stored for the incident: its anchor, or nothing.
    pub anchor: Option<IncidentAnchor>,
    /// The supervisor or admin who signed the request.
    pub approver: Identity,
}

/// The anchor after `approver` approved it at time `now`.
pub open spec fn approved(anchor: AnchorView, approver: Seq<u8>, now: i64) -> AnchorView {
    AnchorView {
        supervisor: Some(approver),
        requires_approval: false,
        approval_timestamp: Some(now),
        updated_at: now,
        ..anchor
    }
}

/// What an approval does: the anchor that it leaves, or the reason for which
/// it is refused.
pub open spec fn approve_anchor_outcome(stored: Option<AnchorView>, approver: Seq<u8>, now: i64)
    -> Result<AnchorView, SatorAnchorError> {
    match stored {
        None => Err(SatorAnchorError::AnchorNotFound),
        Some(anchor) => if !anchor.requires_approval {
            Err(SatorAnchorError::AlreadyApproved)
        } else {
            Ok(approved(anchor, approver, now))
        },
    }
}

/// The notice of an approval that left the anchor `after`.
pub open spec fn anchor_approved(after: AnchorView, approver: Seq<u8>, now: i64)
    -> AnchorApprovedView {
    AnchorApprovedView {
        incident_id: after.incident_id,
        operator: after.operator,
        supervisor: approver,
        timestamp: now,
    }
}

/// Approves the anchor in `ctx` in the name of `ctx.approver`.
///
/// Any identity may approve: whether it is a supervisor or an admin is for
/// the caller to check. An anchor is approved at most once; a refused
/// approval leaves `ctx` as it was.
pub fn handler(ctx: &mut ApproveAnchor, now: i64) -> (result: Result<
    AnchorApproved,
    SatorAnchorError,
>)
    ensures
        final(ctx).approver == old(ctx).approver,
        match approve_anchor_outcome(slot_view(old(ctx).anchor), old(ctx).approver@, now) {
            Ok(after) => {
                &&& slot_view(final(ctx).anchor) == Some(after)
                &&& result is Ok
                &&& result->Ok_0@ == anchor_approved(after, old(ctx).approver@, now)
            },
            Err(reason) => {
                &&& result is Err
                &&& result->Err_0 == reason
                &&& *final(ctx) == *old(ctx)
            },
        },
{
    match &mut ctx.anchor {
        None => Err(SatorAnchorError::AnchorNotFound),
        Some(anchor) => {
            if !anchor.requires_approval {
                return Err(SatorAnchorError::AlreadyApproved);
            }
            anchor.supervisor = Some(ctx.approver);
            anchor.requires_approval = false;
            anchor.approval_timestamp = Some(now);
            anchor.updated_at = now;
            Ok(
                AnchorApproved {
                    incident_id: anchor.incident_id,
                    operator: anchor.operator,
                    supervisor: ctx.approver,
                    timestamp: now,
                },
            )
        },
    }
}

} // verus!
