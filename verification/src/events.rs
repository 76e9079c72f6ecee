//! The notices that a successful transition hands back for publication.

use crate::state::Identity;
use vstd::prelude::*;

verus! {

/// A new incident anchor was created.
#[derive(Clone, Debug, PartialEq, Eq)]
pub struct AnchorCreated {
    pub incident_id: u64,
    pub operator: Identity,
    pub operator_role: u8,
    pub bundle_root_hash: [u8; 32],
    pub packet_uri: String,
    pub timestamp: i64,
}

/// `AnchorCreated` as a mathematical value.
pub struct AnchorCreatedView {
    pub incident_id: u64,
    pub operator: Seq<u8>,
    pub operator_role: u8,
    pub bundle_root_hash: Seq<u8>,
    pub packet_uri: Seq<char>,
    pub timestamp: i64,
}

impl View for AnchorCreated {
    type V = AnchorCreatedView;

    open spec fn view(&self) -> AnchorCreatedView {
        AnchorCreatedView {
            incident_id: self.incident_id,
            operator: self.operator@,
            operator_role: self.operator_role,
            bundle_root_hash: self.bundle_root_hash@,
            packet_uri: self.packet_uri@,
            timestamp: self.timestamp,
        }
    }
}

/// An event was appended to the chain.
#[derive(Clone, Copy, Debug, PartialEq, Eq)]
pub struct EventAppended {
    pub incident_id: u64,
    pub event_hash: [u8; 32],
    pub new_chain_head: [u8; 32],
    pub event_count: u32,
    pub timestamp: i64,
}

/// `EventAppended` as a mathematical value.
pub struct EventAppendedView {
    pub incident_id: u64,
    pub event_hash: Seq<u8>,
    pub new_chain_head: Seq<u8>,
    pub event_count: u32,
    pub timestamp: i64,
}

impl View for EventAppended {
    type V = EventAppendedView;

    open spec fn view(&self) -> EventAppendedView {
        EventAppendedView {
            incident_id: self.incident_id,
            event_hash: self.event_hash@,
            new_chain_head: self.new_chain_head@,
            event_count: self.event_count,
            timestamp: self.timestamp,
        }
    }
}

/// Artifact hashes were replaced and the bundle root recomputed.
#[derive(Clone, Debug, PartialEq, Eq)]
pub struct ArtifactsUpdated {
    pub incident_id: u64,
    pub operator: Identity,
    pub old_bundle_root: [u8; 32],
    pub new_bundle_root: [u8; 32],
    pub packet_uri: String,
    pub timestamp: i64,
}

/// `ArtifactsUpdated` as a mathematical value.
pub struct ArtifactsUpdatedView {
    pub incident_id: u64,
    pub operator: Seq<u8>,
    pub old_bundle_root: Seq<u8>,
    pub new_bundle_root: Seq<u8>,
    pub packet_uri: Seq<char>,
    pub timestamp: i64,
}

impl View for ArtifactsUpdated {
    type V = ArtifactsUpdatedView;

    open spec fn view(&self) -> ArtifactsUpdatedView {
        ArtifactsUpdatedView {
            incident_id: self.incident_id,
            operator: self.operator@,
            old_bundle_root: self.old_bundle_root@,
            new_bundle_root: self.new_bundle_root@,
            packet_uri: self.packet_uri@,
            timestamp: self.timestamp,
        }
    }
}

/// An anchor was approved.
#[derive(Clone, Copy, Debug, PartialEq, Eq)]
pub struct AnchorApproved {
    pub incident_id: u64,
    pub operator: Identity,
    pub supervisor: Identity,
    pub timestamp: i64,
}

/// `AnchorApproved` as a mathematical value.
pub struct AnchorApprovedView {
    pub incident_id: u64,
    pub operator: Seq<u8>,
    pub supervisor: Seq<u8>,
    pub timestamp: i64,
}

impl View for AnchorApproved {
    type V = AnchorApprovedView;

    open spec fn view(&self) -> AnchorApprovedView {
        AnchorApprovedView {
            incident_id: self.incident_id,
            operator: self.operator@,
            supervisor: self.supervisor@,
            timestamp: self.timestamp,
        }
    }
}

} // verus!
