//! The incident anchor: the record that holds the committed hashes of one
//! incident, its event chain and its approval state.

use crate::hashing::{bundle_root, bundle_root_of, chain_step, chain_step_of};
use vstd::prelude::*;

verus! {

/// A cryptographic identity: the 32 bytes of a public key. Whoever hands one
/// to this library has already checked that the request was signed with it.
#[derive(Clone, Copy, Debug, PartialEq, Eq)]
pub struct Identity {
    pub bytes: [u8; 32],
}

impl View for Identity {
    type V = Seq<u8>;

    open spec fn view(&self) -> Seq<u8> {
        self.bytes@
    }
}

impl Identity {
    /// The identity with the given key bytes.
    pub fn new(bytes: [u8; 32]) -> (id: Identity)
        ensures
            id.bytes == bytes,
    {
        Identity { bytes }
    }

    /// The key bytes of this identity.
    pub fn to_bytes(&self) -> (bytes: [u8; 32])
        ensures
            bytes == self.bytes,
    {
        self.bytes
    }

    /// Whether two identities are the same key.
    pub fn same_as(&self, other: &Identity) -> (same: bool)
        ensures
            same == (self@ == other@),
            same == (*self == *other),
    {
        let mut i: usize = 0;
        while i < 32
            invariant
                i <= 32,
                forall|k: int| 0 <= k < i ==> self.bytes[k] == other.bytes[k],
            decreases 32 - i,
        {
            if self.bytes[i] != other.bytes[i] {
                assert(self@[i as int] != other@[i as int]);
                return false;
            }
            i += 1;
        }
        assert(self@ =~= other@);
        assert(self.bytes =~= other.bytes);
        true
    }
}

/// The role of an operator in the hierarchy. Anchors made by an employee
/// need a supervisor's approval.
#[derive(Clone, Copy, Debug, PartialEq, Eq, Structural)]
pub enum OperatorRole {
    Employee,
    Supervisor,
    Admin,
}

/// The role that a stored role number stands for: 0 is an employee, 1 a
/// supervisor, 2 an admin, and any other number is read as an employee.
pub open spec fn role_of(value: u8) -> OperatorRole {
    if value == 1 {
        OperatorRole::Supervisor
    } else if value == 2 {
        OperatorRole::Admin
    } else {
        OperatorRole::Employee
    }
}

/// Whether a role number names one of the three roles.
pub open spec fn is_valid_role(value: u8) -> bool {
    value <= 2
}

impl OperatorRole {
    /// The number under which this role is stored.
    pub open spec fn number(self) -> u8 {
        match self {
            OperatorRole::Employee => 0,
            OperatorRole::Supervisor => 1,
            OperatorRole::Admin => 2,
        }
    }

    /// The number under which this role is stored.
    pub fn to_u8(self) -> (value: u8)
        ensures
            value == self.number(),
            is_valid_role(value),
            role_of(value) == self,
    {
        match self {
            OperatorRole::Employee => 0,
            OperatorRole::Supervisor => 1,
            OperatorRole::Admin => 2,
        }
    }

    /// Whether an anchor created under this role has to be approved.
    pub open spec fn needs_approval(self) -> bool {
        self == OperatorRole::Employee
    }
}

impl From<u8> for OperatorRole {
    fn from(value: u8) -> (role: OperatorRole) {
        match value {
            0 => OperatorRole::Employee,
            1 => OperatorRole::Supervisor,
            2 => OperatorRole::Admin,
            _ => OperatorRole::Employee,
        }
    }
}

impl vstd::std_specs::convert::FromSpecImpl<u8> for OperatorRole {
    open spec fn obeys_from_spec() -> bool {
        true
    }

    open spec fn from_spec(value: u8) -> OperatorRole {
        role_of(value)
    }
}

/// The record of one incident.
#[derive(Clone, Debug, PartialEq, Eq)]
pub struct IncidentAnchor {
    /// The operator who created this anchor and alone may change it.
    pub operator: Identity,
    /// The incident that this anchor belongs to.
    pub incident_id: u64,
    /// Hash of the incident's core facts.
    pub incident_core_hash: [u8; 32],
    /// Hash of the evidence set.
    pub evidence_set_hash: [u8; 32],
    /// Hash of the contradictions.
    pub contradictions_hash: [u8; 32],
    /// Hash of the trust receipt.
    pub trust_receipt_hash: [u8; 32],
    /// Hash of the operator's decisions.
    pub operator_decisions_hash: [u8; 32],
    /// Hash of the timeline.
    pub timeline_hash: [u8; 32],
    /// Digest of the six hashes above, in that order.
    pub bundle_root_hash: [u8; 32],
    /// Head of the event chain.
    pub event_chain_head: [u8; 32],
    /// Number of events in the chain; the first event counts.
    pub event_count: u32,
    /// The operator's role, as a number (0 employee, 1 supervisor, 2 admin).
    pub operator_role: u8,
    /// Who approved the anchor, once it is approved.
    pub supervisor: Option<Identity>,
    /// Whether the anchor still waits for approval.
    pub requires_approval: bool,
    /// When the anchor was approved.
    pub approval_timestamp: Option<i64>,
    /// Where the full evidence packet is kept.
    pub packet_uri: String,
    /// When the anchor was created.
    pub created_at: i64,
    /// When the anchor was last changed.
    pub updated_at: i64,
    /// Bump seed of the address under which the anchor is stored.
    pub bump: u8,
}

/// An incident anchor as a mathematical value.
pub struct AnchorView {
    pub operator: Seq<u8>,
    pub incident_id: u64,
    /// The six artifact hashes in canonical order: core, evidence set,
    /// contradictions, trust receipt, operator decisions, timeline.
    pub artifact_hashes: Seq<Seq<u8>>,
    pub bundle_root_hash: Seq<u8>,
    pub event_chain_head: Seq<u8>,
    pub event_count: u32,
    pub operator_role: u8,
    pub supervisor: Option<Seq<u8>>,
    pub requires_approval: bool,
    pub approval_timestamp: Option<i64>,
    pub packet_uri: Seq<char>,
    pub created_at: i64,
    pub updated_at: i64,
    pub bump: u8,
}

/// The key bytes of an identity that may be absent.
pub open spec fn identity_view(id: Option<Identity>) -> Option<Seq<u8>> {
    match id {
        Some(id) => Some(id@),
        None => None,
    }
}

impl View for IncidentAnchor {
    type V = AnchorView;

    open spec fn view(&self) -> AnchorView {
        AnchorView {
            operator: self.operator@,
            incident_id: self.incident_id,
            artifact_hashes: seq![
                self.incident_core_hash@,
                self.evidence_set_hash@,
                self.contradictions_hash@,
                self.trust_receipt_hash@,
                self.operator_decisions_hash@,
                self.timeline_hash@,
            ],
            bundle_root_hash: self.bundle_root_hash@,
            event_chain_head: self.event_chain_head@,
            event_count: self.event_count,
            operator_role: self.operator_role,
            supervisor: identity_view(self.supervisor),
            requires_approval: self.requires_approval,
            approval_timestamp: self.approval_timestamp,
            packet_uri: self.packet_uri@,
            created_at: self.created_at,
            updated_at: self.updated_at,
            bump: self.bump,
        }
    }
}

/// What is stored for an incident, as a mathematical value: the anchor, or
/// nothing.
pub open spec fn slot_view(slot: Option<IncidentAnchor>) -> Option<AnchorView> {
    match slot {
        Some(anchor) => Some(anchor@),
        None => None,
    }
}

impl AnchorView {
    /// The stored bundle root is the digest of the six artifact hashes as they
    /// stand.
    pub open spec fn root_is_current(self) -> bool {
        self.bundle_root_hash == bundle_root_of(self.artifact_hashes)
    }

    /// The approval fields agree with one another: an anchor that waits for
    /// approval has neither approver nor approval time, and an approver is
    /// recorded exactly when an approval time is.
    pub open spec fn approval_is_coherent(self) -> bool {
        &&& self.requires_approval ==> self.supervisor is None
        &&& self.supervisor is Some <==> self.approval_timestamp is Some
    }

    /// What holds of every anchor that was created and changed through the
    /// transitions of this library: the bundle root is current, the first
    /// event is counted, the role is a known one, only an employee's anchor
    /// waits for approval, the approval fields are coherent, and the URI is
    /// at most `MAX_URI_LEN` characters long.
    pub open spec fn is_well_formed(self) -> bool {
        &&& self.root_is_current()
        &&& self.event_count >= 1
        &&& is_valid_role(self.operator_role)
        &&& self.requires_approval ==> role_of(self.operator_role).needs_approval()
        &&& self.approval_is_coherent()
        &&& self.packet_uri.len() <= IncidentAnchor::MAX_URI_LEN
    }
}

impl IncidentAnchor {
    /// The longest packet URI that an anchor may carry, in characters.
    pub const MAX_URI_LEN: usize = 200;

    /// Computes the bundle root from the six artifact hashes of this anchor,
    /// whatever root is stored in it.
    pub fn compute_bundle_root(&self) -> (root: [u8; 32])
        ensures
            root@ == bundle_root_of(self@.artifact_hashes),
    {
        bundle_root(
            &self.incident_core_hash,
            &self.evidence_set_hash,
            &self.contradictions_hash,
            &self.trust_receipt_hash,
            &self.operator_decisions_hash,
            &self.timeline_hash,
        )
    }

    /// Computes the chain head that follows this anchor's head once
    /// `event_hash` is appended.
    pub fn compute_new_event_head(&self, event_hash: &[u8; 32]) -> (head: [u8; 32])
        ensures
            head@ == chain_step_of(self@.event_chain_head, event_hash@),
    {
        chain_step(&self.event_chain_head, event_hash)
    }

    /// The operator's role.
    pub fn role(&self) -> (role: OperatorRole)
        ensures
            role == role_of(self.operator_role),
    {
        OperatorRole::from(self.operator_role)
    }

    /// Whether `signer` is the operator who owns this anchor.
    pub fn is_operator(&self, signer: &Identity) -> (owns: bool)
        ensures
            owns == (signer@ == self@.operator),
    {
        self.operator.same_as(signer)
    }
}

} // verus!
