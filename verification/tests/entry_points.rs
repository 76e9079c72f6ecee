use sator_anchor::errors::SatorAnchorError;
use sator_anchor::instructions::append_event::AppendEvent;
use sator_anchor::instructions::approve_anchor::ApproveAnchor;
use sator_anchor::instructions::create_anchor::CreateAnchor;
use sator_anchor::instructions::update_artifacts::UpdateArtifacts;
use sator_anchor::instructions;
use sator_anchor::state::{Identity, OperatorRole};
use sator_anchor::{append_event, approve_anchor, create_anchor, update_artifacts};

fn owner() -> Identity {
    Identity::new([0x10u8; 32])
}

fn fresh() -> CreateAnchor {
    CreateAnchor { anchor: None, operator: owner(), bump: 250 }
}

fn created() -> CreateAnchor {
    let mut ctx = fresh();
    create_anchor(
        &mut ctx,
        7,
        [1u8; 32],
        [2u8; 32],
        [3u8; 32],
        [4u8; 32],
        [5u8; 32],
        [6u8; 32],
        [0xAAu8; 32],
        0,
        String::from("mongo:abc"),
        100,
    )
    .unwrap();
    ctx
}

#[test]
fn create_anchor_does_what_its_handler_does() {
    let by_entry = created();
    let mut by_handler = fresh();
    instructions::create_anchor::handler(
        &mut by_handler,
        7,
        [1u8; 32],
        [2u8; 32],
        [3u8; 32],
        [4u8; 32],
        [5u8; 32],
        [6u8; 32],
        [0xAAu8; 32],
        0,
        String::from("mongo:abc"),
        100,
    )
    .unwrap();
    assert_eq!(by_entry.anchor, by_handler.anchor);
    assert!(by_entry.anchor.is_some());
}

#[test]
fn create_anchor_refuses_a_second_creation() {
    let mut ctx = created();
    let before = ctx.anchor.clone();
    let result = create_anchor(
        &mut ctx,
        7,
        [9u8; 32],
        [9u8; 32],
        [9u8; 32],
        [9u8; 32],
        [9u8; 32],
        [9u8; 32],
        [0xBBu8; 32],
        1,
        String::from("mongo:def"),
        200,
    );
    assert_eq!(result, Err(SatorAnchorError::AnchorAlreadyExists));
    assert_eq!(ctx.anchor, before);
}

#[test]
fn append_event_does_what_its_handler_does() {
    let anchor = created().anchor;
    let mut by_entry = AppendEvent { anchor: anchor.clone(), operator: owner() };
    let mut by_handler = AppendEvent { anchor, operator: owner() };
    let a = append_event(&mut by_entry, [0xBBu8; 32], 150);
    let b = instructions::append_event::handler(&mut by_handler, [0xBBu8; 32], 150);
    assert!(a.is_ok());
    assert_eq!(a, b);
    assert_eq!(by_entry.anchor, by_handler.anchor);
    assert_eq!(by_entry.anchor.unwrap().event_count, 2);
}

#[test]
fn append_event_refuses_a_foreign_signer() {
    let anchor = created().anchor;
    let mut ctx = AppendEvent { anchor: anchor.clone(), operator: Identity::new([0x11u8; 32]) };
    assert_eq!(append_event(&mut ctx, [0xBBu8; 32], 150), Err(SatorAnchorError::Unauthorized));
    assert_eq!(ctx.anchor, anchor);
}

#[test]
fn append_event_reports_a_missing_anchor() {
    let mut ctx = AppendEvent { anchor: None, operator: owner() };
    assert_eq!(append_event(&mut ctx, [0xBBu8; 32], 150), Err(SatorAnchorError::AnchorNotFound));
}

#[test]
fn update_artifacts_does_what_its_handler_does() {
    let anchor = created().anchor;
    let mut by_entry = UpdateArtifacts { anchor: anchor.clone(), operator: owner() };
    let mut by_handler = UpdateArtifacts { anchor, operator: owner() };
    let a = update_artifacts(
        &mut by_entry,
        None,
        None,
        None,
        Some([0x44u8; 32]),
        None,
        None,
        [0xCCu8; 32],
        Some(String::from("mongo:xyz")),
        160,
    );
    let b = instructions::update_artifacts::handler(
        &mut by_handler,
        None,
        None,
        None,
        Some([0x44u8; 32]),
        None,
        None,
        [0xCCu8; 32],
        Some(String::from("mongo:xyz")),
        160,
    );
    assert!(a.is_ok());
    assert_eq!(a, b);
    assert_eq!(by_entry.anchor, by_handler.anchor);
    let after = by_entry.anchor.unwrap();
    assert_eq!(after.trust_receipt_hash, [0x44u8; 32]);
    assert_eq!(after.packet_uri, "mongo:xyz");
    assert_eq!(after.bundle_root_hash, after.compute_bundle_root());
}

#[test]
fn update_artifacts_refuses_a_foreign_signer() {
    let anchor = created().anchor;
    let mut ctx =
        UpdateArtifacts { anchor: anchor.clone(), operator: Identity::new([0x11u8; 32]) };
    let result = update_artifacts(
        &mut ctx, Some([0u8; 32]), None, None, None, None, None, [0xCCu8; 32], None, 160,
    );
    assert_eq!(result, Err(SatorAnchorError::Unauthorized));
    assert_eq!(ctx.anchor, anchor);
}

#[test]
fn approve_anchor_does_what_its_handler_does() {
    let anchor = created().anchor;
    let approver = Identity::new([0x33u8; 32]);
    let mut by_entry = ApproveAnchor { anchor: anchor.clone(), approver };
    let mut by_handler = ApproveAnchor { anchor, approver };
    let a = approve_anchor(&mut by_entry, 170);
    let b = instructions::approve_anchor::handler(&mut by_handler, 170);
    assert!(a.is_ok());
    assert_eq!(a, b);
    assert_eq!(by_entry.anchor, by_handler.anchor);
    assert_eq!(approve_anchor(&mut by_entry, 180), Err(SatorAnchorError::AlreadyApproved));
}

#[test]
fn operator_role_from_number() {
    assert_eq!(OperatorRole::from(0u8), OperatorRole::Employee);
    assert_eq!(OperatorRole::from(1u8), OperatorRole::Supervisor);
    assert_eq!(OperatorRole::from(2u8), OperatorRole::Admin);
    assert_eq!(OperatorRole::from(3u8), OperatorRole::Employee);
    assert_eq!(OperatorRole::from(255u8), OperatorRole::Employee);
}

#[test]
fn operator_role_to_number_and_back() {
    for role in [OperatorRole::Employee, OperatorRole::Supervisor, OperatorRole::Admin] {
        assert_eq!(OperatorRole::from(role.to_u8()), role);
    }
    assert_eq!(OperatorRole::Employee.to_u8(), 0);
    assert_eq!(OperatorRole::Supervisor.to_u8(), 1);
    assert_eq!(OperatorRole::Admin.to_u8(), 2);
}

#[test]
fn anchor_role_reads_the_stored_number() {
    let mut anchor = created().anchor.unwrap();
    assert_eq!(anchor.role(), OperatorRole::Employee);
    anchor.operator_role = 2;
    assert_eq!(anchor.role(), OperatorRole::Admin);
}

#[test]
fn identity_same_as_compares_all_bytes() {
    let a = Identity::new([5u8; 32]);
    let mut bytes = [5u8; 32];
    assert!(a.same_as(&Identity::new(bytes)));
    bytes[0] = 6;
    assert!(!a.same_as(&Identity::new(bytes)));
    bytes[0] = 5;
    bytes[31] = 6;
    assert!(!a.same_as(&Identity::new(bytes)));
    bytes[31] = 5;
    bytes[17] = 0;
    assert!(!a.same_as(&Identity::new(bytes)));
    assert_eq!(a.to_bytes(), [5u8; 32]);
}

#[test]
fn anchor_is_operator_only_for_its_owner() {
    let anchor = created().anchor.unwrap();
    assert!(anchor.is_operator(&owner()));
    assert!(!anchor.is_operator(&Identity::new([0x11u8; 32])));
}

#[test]
fn max_uri_len_is_200() {
    assert_eq!(sator_anchor::state::IncidentAnchor::MAX_URI_LEN, 200);
}

#[test]
fn error_messages() {
    assert_eq!(
        SatorAnchorError::Unauthorized.message(),
        "Unauthorized: Only the operator can modify this anchor"
    );
    assert_eq!(
        SatorAnchorError::AnchorAlreadyExists.message(),
        "Anchor already exists for this incident"
    );
    assert_eq!(SatorAnchorError::InvalidOperatorRole.message(), "Invalid operator role");
    assert_eq!(
        SatorAnchorError::PacketUriTooLong.message(),
        "Packet URI too long (max 200 characters)"
    );
    assert_eq!(SatorAnchorError::EventCountOverflow.message(), "Event count overflow");
    assert_eq!(
        SatorAnchorError::RequiresApproval.message(),
        "Anchor requires supervisor approval"
    );
    assert_eq!(
        SatorAnchorError::NotSupervisorOrAdmin.message(),
        "Only supervisors or admins can approve"
    );
    assert_eq!(SatorAnchorError::AlreadyApproved.message(), "Anchor is already approved");
    assert_eq!(SatorAnchorError::InvalidHash.message(), "Invalid hash provided");
    assert_eq!(
        SatorAnchorError::AnchorNotFound.message(),
        "No anchor exists for this incident"
    );
}
