//! The reasons for which a transition on an incident anchor is refused.

use vstd::prelude::*;

verus! {

/// Why a transition was refused. A refused transition changes nothing.
#[derive(Clone, Copy, Debug, PartialEq, Eq, Structural)]
pub enum SatorAnchorError {
    /// The signer is not the operator who owns the anchor.
    Unauthorized,
    /// An anchor is already stored for this incident.
    AnchorAlreadyExists,
    /// The operator role is not one of the known roles.
    InvalidOperatorRole,
    /// The packet URI is longer than `MAX_URI_LEN` characters.
    PacketUriTooLong,
    /// One more event would not fit in the 32-bit event counter.
    EventCountOverflow,
    /// The anchor still waits for a supervisor's approval.
    RequiresApproval,
    /// The approver is neither a supervisor nor an admin.
    NotSupervisorOrAdmin,
    /// The anchor does not wait for approval: it was approved before, or
    /// never needed approval.
    AlreadyApproved,
    /// A hash is not a valid digest.
    InvalidHash,
    /// No anchor is stored for this incident.
    AnchorNotFound,
}

impl SatorAnchorError {
    /// The message that describes this error to a caller.
    pub fn message(&self) -> (text: &'static str)
        ensures
            text@ == self.message_text(),
    {
        match self {
            SatorAnchorError::Unauthorized => {
                "Unauthorized: Only the operator can modify this anchor"
            },
            SatorAnchorError::AnchorAlreadyExists => "Anchor already exists for this incident",
            SatorAnchorError::InvalidOperatorRole => "Invalid operator role",
            SatorAnchorError::PacketUriTooLong => "Packet URI too long (max 200 characters)",
            SatorAnchorError::EventCountOverflow => "Event count overflow",
            SatorAnchorError::RequiresApproval => "Anchor requires supervisor approval",
            SatorAnchorError::NotSupervisorOrAdmin => "Only supervisors or admins can approve",
            SatorAnchorError::AlreadyApproved => "Anchor is already approved",
            SatorAnchorError::InvalidHash => "Invalid hash provided",
            SatorAnchorError::AnchorNotFound => "No anchor exists for this incident",
        }
    }

    /// The characters of `message`.
    pub open spec fn message_text(&self) -> Seq<char> {
        match self {
            SatorAnchorError::Unauthorized => {
                "Unauthorized: Only the operator can modify this anchor"@
            },
            SatorAnchorError::AnchorAlreadyExists => "Anchor already exists for this incident"@,
            SatorAnchorError::InvalidOperatorRole => "Invalid operator role"@,
            SatorAnchorError::PacketUriTooLong => "Packet URI too long (max 200 characters)"@,
            SatorAnchorError::EventCountOverflow => "Event count overflow"@,
            SatorAnchorError::RequiresApproval => "Anchor requires supervisor approval"@,
            SatorAnchorError::NotSupervisorOrAdmin => "Only supervisors or admins can approve"@,
            SatorAnchorError::AlreadyApproved => "Anchor is already approved"@,
            SatorAnchorError::InvalidHash => "Invalid hash provided"@,
            SatorAnchorError::AnchorNotFound => "No anchor exists for this incident"@,
        }
    }
}

} // verus!
