use sator_anchor::hashing::{bundle_preimage_bytes, chain_preimage_bytes, chain_step, replay_chain};
use sator_anchor::instructions::append_event::AppendEvent;
use sator_anchor::instructions::approve_anchor::ApproveAnchor;
use sator_anchor::instructions::create_anchor::CreateAnchor;
use sator_anchor::instructions::update_artifacts::UpdateArtifacts;
use sator_anchor::instructions::{append_event, approve_anchor, create_anchor, update_artifacts};
use sator_anchor::state::{Identity, IncidentAnchor};

fn signer() -> Identity {
    Identity::new([0x21u8; 32])
}

fn genesis(first_event: [u8; 32]) -> IncidentAnchor {
    let mut ctx = CreateAnchor { anchor: None, operator: signer(), bump: 3 };
    create_anchor::handler(
        &mut ctx,
        99,
        [1u8; 32],
        [2u8; 32],
        [3u8; 32],
        [4u8; 32],
        [5u8; 32],
        [6u8; 32],
        first_event,
        0,
        String::from("cid"),
        10,
    )
    .unwrap();
    ctx.anchor.unwrap()
}

fn append(anchor: IncidentAnchor, event: [u8; 32], now: i64) -> IncidentAnchor {
    let mut ctx = AppendEvent { anchor: Some(anchor), operator: signer() };
    append_event::handler(&mut ctx, event, now).unwrap();
    ctx.anchor.unwrap()
}

fn update_evidence(anchor: IncidentAnchor, hash: [u8; 32], change: [u8; 32]) -> IncidentAnchor {
    let mut ctx = UpdateArtifacts { anchor: Some(anchor), operator: signer() };
    update_artifacts::handler(
        &mut ctx, None, Some(hash), None, None, None, None, change, None, 50,
    )
    .unwrap();
    ctx.anchor.unwrap()
}

fn approve(anchor: IncidentAnchor) -> IncidentAnchor {
    let mut ctx = ApproveAnchor { anchor: Some(anchor), approver: Identity::new([0x31u8; 32]) };
    approve_anchor::handler(&mut ctx, 60).unwrap();
    ctx.anchor.unwrap()
}

#[test]
fn chain_replay_with_no_appended_event() {
    let first = [0xAAu8; 32];
    let anchor = genesis(first);
    assert_eq!(anchor.event_chain_head, first);
    assert_eq!(replay_chain(first, &Vec::new()), anchor.event_chain_head);
    assert_eq!(anchor.event_count, 1);
}

#[test]
fn chain_replay_reproduces_the_head_after_appends() {
    let first = [0xAAu8; 32];
    let mut anchor = genesis(first);
    let mut log: Vec<[u8; 32]> = Vec::new();
    for n in 0..20u8 {
        let event = [n; 32];
        anchor = append(anchor, event, 100 + n as i64);
        log.push(event);
        assert_eq!(replay_chain(first, &log), anchor.event_chain_head);
        assert_eq!(anchor.event_count as usize, 1 + log.len());
    }
}

#[test]
fn chain_replay_covers_updates_and_skips_approvals() {
    let first = [0xAAu8; 32];
    let mut anchor = genesis(first);
    let mut log: Vec<[u8; 32]> = Vec::new();

    anchor = append(anchor, [0x01u8; 32], 20);
    log.push([0x01u8; 32]);
    anchor = update_evidence(anchor, [0x77u8; 32], [0x02u8; 32]);
    log.push([0x02u8; 32]);
    anchor = approve(anchor);
    anchor = append(anchor, [0x03u8; 32], 70);
    log.push([0x03u8; 32]);

    assert_eq!(replay_chain(first, &log), anchor.event_chain_head);
    assert_eq!(anchor.event_count, 4);
}

#[test]
fn chain_replay_detects_a_missing_or_reordered_event() {
    let first = [0xAAu8; 32];
    let mut anchor = genesis(first);
    anchor = append(anchor, [0x01u8; 32], 20);
    anchor = append(anchor, [0x02u8; 32], 21);
    assert_ne!(replay_chain(first, &vec![[0x02u8; 32], [0x01u8; 32]]), anchor.event_chain_head);
    assert_ne!(replay_chain(first, &vec![[0x01u8; 32]]), anchor.event_chain_head);
    assert_ne!(
        replay_chain([0xABu8; 32], &vec![[0x01u8; 32], [0x02u8; 32]]),
        anchor.event_chain_head
    );
    assert_eq!(replay_chain(first, &vec![[0x01u8; 32], [0x02u8; 32]]), anchor.event_chain_head);
}

#[test]
fn event_count_grows_by_one_per_append_or_update() {
    let mut anchor = genesis([0xAAu8; 32]);
    let mut expected = 1u32;
    assert_eq!(anchor.event_count, expected);
    for n in 0..10u8 {
        let before = anchor.event_count;
        anchor = if n % 2 == 0 {
            append(anchor, [n; 32], 30)
        } else {
            update_evidence(anchor, [n; 32], [n; 32])
        };
        expected += 1;
        assert!(anchor.event_count >= before);
        assert_eq!(anchor.event_count, before + 1);
        assert_eq!(anchor.event_count, expected);
    }
    let before = anchor.event_count;
    anchor = approve(anchor);
    assert_eq!(anchor.event_count, before);
}

#[test]
fn refused_transitions_do_not_count() {
    let anchor = genesis([0xAAu8; 32]);
    let mut ctx = AppendEvent { anchor: Some(anchor.clone()), operator: Identity::new([0u8; 32]) };
    assert!(append_event::handler(&mut ctx, [1u8; 32], 5).is_err());
    assert_eq!(ctx.anchor.unwrap().event_count, anchor.event_count);
}

#[test]
fn stored_bundle_root_matches_recomputation_after_every_transition() {
    let mut anchor = genesis([0xAAu8; 32]);
    assert_eq!(anchor.compute_bundle_root(), anchor.bundle_root_hash);
    anchor = update_evidence(anchor, [0x77u8; 32], [0x02u8; 32]);
    assert_eq!(anchor.compute_bundle_root(), anchor.bundle_root_hash);
    anchor = append(anchor, [0x03u8; 32], 70);
    assert_eq!(anchor.compute_bundle_root(), anchor.bundle_root_hash);
    anchor = approve(anchor);
    assert_eq!(anchor.compute_bundle_root(), anchor.bundle_root_hash);
    anchor = update_evidence(anchor, [0x78u8; 32], [0x04u8; 32]);
    assert_eq!(anchor.compute_bundle_root(), anchor.bundle_root_hash);
}

#[test]
fn update_repairs_a_stale_bundle_root() {
    let mut anchor = genesis([0xAAu8; 32]);
    anchor.bundle_root_hash = [0xFFu8; 32];
    assert_ne!(anchor.compute_bundle_root(), anchor.bundle_root_hash);
    let mut ctx = UpdateArtifacts { anchor: Some(anchor), operator: signer() };
    let notice = update_artifacts::handler(
        &mut ctx, None, None, None, None, None, None, [0x02u8; 32], None, 50,
    )
    .unwrap();
    let anchor = ctx.anchor.unwrap();
    assert_eq!(notice.old_bundle_root, [0xFFu8; 32]);
    assert_eq!(anchor.compute_bundle_root(), anchor.bundle_root_hash);
}

#[test]
fn what_creation_fixes_stays_fixed() {
    let start = genesis([0xAAu8; 32]);
    let mut anchor = start.clone();
    anchor = append(anchor, [0x01u8; 32], 20);
    anchor = update_evidence(anchor, [0x77u8; 32], [0x02u8; 32]);
    anchor = approve(anchor);
    assert_eq!(anchor.operator, start.operator);
    assert_eq!(anchor.incident_id, start.incident_id);
    assert_eq!(anchor.operator_role, start.operator_role);
    assert_eq!(anchor.created_at, start.created_at);
    assert_eq!(anchor.bump, start.bump);
}

#[test]
fn approval_survives_later_transitions() {
    let mut anchor = approve(genesis([0xAAu8; 32]));
    let supervisor = anchor.supervisor;
    let approved_at = anchor.approval_timestamp;
    assert!(supervisor.is_some());
    anchor = append(anchor, [0x01u8; 32], 80);
    anchor = update_evidence(anchor, [0x77u8; 32], [0x02u8; 32]);
    assert!(!anchor.requires_approval);
    assert_eq!(anchor.supervisor, supervisor);
    assert_eq!(anchor.approval_timestamp, approved_at);
}

#[test]
fn bundle_preimage_is_the_six_hashes_in_order() {
    let data = bundle_preimage_bytes(
        &[1u8; 32], &[2u8; 32], &[3u8; 32], &[4u8; 32], &[5u8; 32], &[6u8; 32],
    );
    assert_eq!(data.len(), 192);
    for (i, byte) in data.iter().enumerate() {
        assert_eq!(*byte as usize, i / 32 + 1);
    }
}

#[test]
fn chain_preimage_is_head_then_event() {
    let data = chain_preimage_bytes(&[0xAAu8; 32], &[0xBBu8; 32]);
    assert_eq!(data.len(), 64);
    assert_eq!(&data[..32], &[0xAAu8; 32]);
    assert_eq!(&data[32..], &[0xBBu8; 32]);
}

#[test]
fn each_head_depends_on_the_one_before() {
    let first = [0xAAu8; 32];
    let one = chain_step(&first, &[0x01u8; 32]);
    let two = chain_step(&one, &[0x02u8; 32]);
    let other_one = chain_step(&[0xABu8; 32], &[0x01u8; 32]);
    let other_two = chain_step(&other_one, &[0x02u8; 32]);
    assert_ne!(one, other_one);
    assert_ne!(two, other_two);
}
