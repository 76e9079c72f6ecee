//! What holds of an anchor over its whole history: whatever sequence of
//! transitions it went through, its chain head can be replayed from the
//! event hashes, its counter counts them, its bundle root is current, and
//! its identity and approval never go back.

use crate::errors::SatorAnchorError;
use crate::hashing::{chain_fold, chain_step_of};
use crate::instructions::append_event::append_event_outcome;
use crate::instructions::approve_anchor::approve_anchor_outcome;
use crate::instructions::create_anchor::{create_anchor_outcome, created};
use crate::instructions::update_artifacts::update_artifacts_outcome;
use crate::state::AnchorView;
use vstd::prelude::*;

verus! {

/// One request made on an existing anchor.
pub enum Transition {
    /// An append of `event_hash`, signed by `signer`.
    AppendEvent { signer: Seq<u8>, event_hash: Seq<u8>, now: i64 },
    /// An update of the artifact hashes, signed by `signer`.
    UpdateArtifacts {
        signer: Seq<u8>,
        supplied: Seq<Option<Seq<u8>>>,
        change_event_hash: Seq<u8>,
        packet_uri: Option<Seq<char>>,
        now: i64,
    },
    /// An approval, signed by `approver`.
    ApproveAnchor { approver: Seq<u8>, now: i64 },
}

impl Transition {
    /// What this request does to `anchor`.
    pub open spec fn outcome(self, anchor: AnchorView) -> Result<AnchorView, SatorAnchorError> {
        match self {
            Transition::AppendEvent { signer, event_hash, now } => append_event_outcome(
                Some(anchor),
                signer,
                event_hash,
                now,
            ),
            Transition::UpdateArtifacts {
                signer,
                supplied,
                change_event_hash,
                packet_uri,
                now,
            } => update_artifacts_outcome(
                Some(anchor),
                signer,
                supplied,
                change_event_hash,
                packet_uri,
                now,
            ),
            Transition::ApproveAnchor { approver, now } => approve_anchor_outcome(
                Some(anchor),
                approver,
                now,
            ),
        }
    }

    /// The event hash that this request adds to the chain, if it adds one:
    /// appends and updates do, approvals do not.
    pub open spec fn chained_hash(self) -> Option<Seq<u8>> {
        match self {
            Transition::AppendEvent { event_hash, .. } => Some(event_hash),
            Transition::UpdateArtifacts { change_event_hash, .. } => Some(change_event_hash),
            Transition::ApproveAnchor { .. } => None,
        }
    }

    /// The time at which this request is made.
    pub open spec fn time(self) -> i64 {
        match self {
            Transition::AppendEvent { now, .. } => now,
            Transition::UpdateArtifacts { now, .. } => now,
            Transition::ApproveAnchor { now, .. } => now,
        }
    }

    /// Who signed this request in the name of the anchor's operator: appends
    /// and updates are made in that name, approvals are not.
    pub open spec fn signer(self) -> Option<Seq<u8>> {
        match self {
            Transition::AppendEvent { signer, .. } => Some(signer),
            Transition::UpdateArtifacts { signer, .. } => Some(signer),
            Transition::ApproveAnchor { .. } => None,
        }
    }
}

/// The anchor reached from `start` when the requests of `steps` are made in
/// order and every one succeeds; `None` if one of them is refused.
pub open spec fn run(start: AnchorView, steps: Seq<Transition>) -> Option<AnchorView>
    decreases steps.len(),
{
    if steps.len() == 0 {
        Some(start)
    } else {
        match run(start, steps.drop_last()) {
            Some(anchor) => match steps.last().outcome(anchor) {
                Ok(next) => Some(next),
                Err(_) => None,
            },
            None => None,
        }
    }
}

/// The event hashes that `steps` add to the chain, in order.
pub open spec fn chained_hashes(steps: Seq<Transition>) -> Seq<Seq<u8>>
    decreases steps.len(),
{
    if steps.len() == 0 {
        Seq::empty()
    } else {
        let earlier = chained_hashes(steps.drop_last());
        match steps.last().chained_hash() {
            Some(hash) => earlier.push(hash),
            None => earlier,
        }
    }
}

/// Folding one more event is one more chain step.
pub proof fn lemma_chain_fold_push(head: Seq<u8>, events: Seq<Seq<u8>>, event: Seq<u8>)
    ensures
        chain_fold(head, events.push(event)) == chain_step_of(chain_fold(head, events), event),
{
    assert(events.push(event).drop_last() =~= events);
}

/// With no appended event the replayed head is the starting head itself.
pub proof fn lemma_chain_fold_empty(head: Seq<u8>)
    ensures
        chain_fold(head, Seq::empty()) == head,
{
}

/// A successful append or update adds exactly one to the event count and
/// folds the head exactly once; a successful approval leaves both alone.
pub proof fn lemma_step_counts(anchor: AnchorView, step: Transition)
    requires
        step.outcome(anchor) is Ok,
    ensures
        ({
            let next = step.outcome(anchor)->Ok_0;
            match step.chained_hash() {
                Some(hash) => {
                    &&& next.event_count == anchor.event_count + 1
                    &&& next.event_chain_head == chain_step_of(anchor.event_chain_head, hash)
                },
                None => {
                    &&& next.event_count == anchor.event_count
                    &&& next.event_chain_head == anchor.event_chain_head
                },
            }
        }),
{
}

/// If a whole sequence of requests succeeds, so does every prefix of it.
pub proof fn lemma_run_prefix(start: AnchorView, steps: Seq<Transition>, n: int)
    requires
        run(start, steps) is Some,
        0 <= n <= steps.len(),
    ensures
        run(start, steps.take(n)) is Some,
    decreases steps.len(),
{
    if n == steps.len() {
        assert(steps.take(n) =~= steps);
    } else {
        assert(steps.drop_last().take(n) =~= steps.take(n));
        lemma_run_prefix(start, steps.drop_last(), n);
    }
}

/// Chain replay: after any sequence of successful requests the chain head
/// is the fold of the starting head over the event hashes that were
/// chained, in order, and the event count has grown by their number.
pub proof fn lemma_chain_replay(start: AnchorView, steps: Seq<Transition>)
    requires
        run(start, steps) is Some,
    ensures
        run(start, steps)->0.event_chain_head == chain_fold(
            start.event_chain_head,
            chained_hashes(steps),
        ),
        run(start, steps)->0.event_count == start.event_count + chained_hashes(steps).len(),
    decreases steps.len(),
{
    if steps.len() > 0 {
        let earlier = steps.drop_last();
        lemma_chain_replay(start, earlier);
        let anchor = run(start, earlier)->0;
        lemma_step_counts(anchor, steps.last());
        match steps.last().chained_hash() {
            Some(hash) => {
                lemma_chain_fold_push(start.event_chain_head, chained_hashes(earlier), hash);
            },
            None => {},
        }
    }
}

/// Chain replay from creation: an anchor created with a first event hash
/// and then taken through any sequence of successful requests has the head
/// that folding the chained hashes from the first event hash gives, and
/// counts the first event and each chained one. With no request at all the
/// head is the first event hash and the count is one.
pub proof fn lemma_chain_replay_from_creation(
    operator: Seq<u8>,
    bump: u8,
    incident_id: u64,
    artifact_hashes: Seq<Seq<u8>>,
    initial_event_hash: Seq<u8>,
    operator_role: u8,
    packet_uri: Seq<char>,
    now: i64,
    steps: Seq<Transition>,
)
    requires
        run(
            created(
                operator,
                bump,
                incident_id,
                artifact_hashes,
                initial_event_hash,
                operator_role,
                packet_uri,
                now,
            ),
            steps,
        ) is Some,
    ensures
        ({
            let genesis = created(
                operator,
                bump,
                incident_id,
                artifact_hashes,
                initial_event_hash,
                operator_role,
                packet_uri,
                now,
            );
            let last = run(genesis, steps)->0;
            &&& last.event_chain_head == chain_fold(initial_event_hash, chained_hashes(steps))
            &&& last.event_count == 1 + chained_hashes(steps).len()
            &&& steps.len() == 0 ==> last.event_chain_head == initial_event_hash
        }),
{
    let genesis = created(
        operator,
        bump,
        incident_id,
        artifact_hashes,
        initial_event_hash,
        operator_role,
        packet_uri,
        now,
    );
    lemma_chain_replay(genesis, steps);
}

/// Monotonicity: along any sequence of successful requests the event count
/// never goes down.
pub proof fn lemma_event_count_monotonic(
    start: AnchorView,
    steps: Seq<Transition>,
    earlier: int,
    later: int,
)
    requires
        run(start, steps) is Some,
        0 <= earlier <= later <= steps.len(),
    ensures
        run(start, steps.take(earlier)) is Some,
        run(start, steps.take(later)) is Some,
        run(start, steps.take(earlier))->0.event_count <= run(
            start,
            steps.take(later),
        )->0.event_count,
    decreases later - earlier,
{
    lemma_run_prefix(start, steps, earlier);
    lemma_run_prefix(start, steps, later);
    if earlier < later {
        lemma_event_count_monotonic(start, steps, earlier, later - 1);
        let before = steps.take(later - 1);
        let upto = steps.take(later);
        assert(upto.drop_last() =~= before);
        lemma_step_counts(run(start, before)->0, upto.last());
    }
}

/// The bundle root that a successful update leaves is the digest of the six
/// artifact hashes that it leaves, whatever root was stored before.
pub proof fn lemma_update_makes_root_current(anchor: AnchorView, step: Transition)
    requires
        step is UpdateArtifacts,
        step.outcome(anchor) is Ok,
    ensures
        step.outcome(anchor)->Ok_0.root_is_current(),
{
}

/// Re-derivation: an anchor whose bundle root is current keeps a current
/// bundle root through any sequence of successful requests.
pub proof fn lemma_root_stays_current(start: AnchorView, steps: Seq<Transition>)
    requires
        start.root_is_current(),
        run(start, steps) is Some,
    ensures
        run(start, steps)->0.root_is_current(),
    decreases steps.len(),
{
    if steps.len() > 0 {
        lemma_root_stays_current(start, steps.drop_last());
    }
}

/// Authorization gate: an append or an update signed by anyone but the
/// anchor's operator is refused as unauthorized.
pub proof fn lemma_only_operator_mutates(anchor: AnchorView, step: Transition)
    requires
        step.signer() is Some,
        step.signer()->0 != anchor.operator,
    ensures
        step.outcome(anchor) == Err::<AnchorView, SatorAnchorError>(
            SatorAnchorError::Unauthorized,
        ),
{
}

/// A successful creation leaves a well-formed anchor that counts one event,
/// has the first event hash as its chain head, and waits for approval
/// exactly if an employee made it.
pub proof fn lemma_creation_is_well_formed(
    stored: Option<AnchorView>,
    operator: Seq<u8>,
    bump: u8,
    incident_id: u64,
    artifact_hashes: Seq<Seq<u8>>,
    initial_event_hash: Seq<u8>,
    operator_role: u8,
    packet_uri: Seq<char>,
    now: i64,
)
    requires
        create_anchor_outcome(
            stored,
            operator,
            bump,
            incident_id,
            artifact_hashes,
            initial_event_hash,
            operator_role,
            packet_uri,
            now,
        ) is Ok,
    ensures
        ({
            let anchor = create_anchor_outcome(
                stored,
                operator,
                bump,
                incident_id,
                artifact_hashes,
                initial_event_hash,
                operator_role,
                packet_uri,
                now,
            )->Ok_0;
            &&& anchor.is_well_formed()
            &&& anchor.event_count == 1
            &&& anchor.event_chain_head == initial_event_hash
            &&& anchor.requires_approval <==> operator_role == 0
            &&& anchor.supervisor is None
            &&& anchor.approval_timestamp is None
        }),
{
}

/// A well-formed anchor stays well-formed through any sequence of successful
/// requests.
pub proof fn lemma_run_keeps_well_formed(start: AnchorView, steps: Seq<Transition>)
    requires
        start.is_well_formed(),
        run(start, steps) is Some,
    ensures
        run(start, steps)->0.is_well_formed(),
    decreases steps.len(),
{
    if steps.len() > 0 {
        lemma_run_keeps_well_formed(start, steps.drop_last());
    }
}

/// Every successful request stamps the anchor with the time at which it was
/// made, and none changes the time of creation.
pub proof fn lemma_step_stamps_time(anchor: AnchorView, step: Transition)
    requires
        step.outcome(anchor) is Ok,
    ensures
        step.outcome(anchor)->Ok_0.updated_at == step.time(),
        step.outcome(anchor)->Ok_0.created_at == anchor.created_at,
{
}

/// What is fixed at creation stays fixed: no sequence of successful requests
/// changes the operator, the incident, the role, the time of creation or the
/// bump seed.
pub proof fn lemma_identity_is_immutable(start: AnchorView, steps: Seq<Transition>)
    requires
        run(start, steps) is Some,
    ensures
        ({
            let last = run(start, steps)->0;
            &&& last.operator == start.operator
            &&& last.incident_id == start.incident_id
            &&& last.operator_role == start.operator_role
            &&& last.created_at == start.created_at
            &&& last.bump == start.bump
        }),
    decreases steps.len(),
{
    if steps.len() > 0 {
        lemma_identity_is_immutable(start, steps.drop_last());
    }
}

/// Approval never goes back: an anchor whose approval fields are coherent
/// keeps them coherent, an approver once recorded stays recorded with the
/// same approval time, and an anchor that no longer waits for approval
/// never waits again.
pub proof fn lemma_approval_is_final(start: AnchorView, steps: Seq<Transition>)
    requires
        start.approval_is_coherent(),
        run(start, steps) is Some,
    ensures
        ({
            let last = run(start, steps)->0;
            &&& last.approval_is_coherent()
            &&& !start.requires_approval ==> !last.requires_approval
            &&& start.supervisor is Some ==> {
                &&& last.supervisor == start.supervisor
                &&& last.approval_timestamp == start.approval_timestamp
            }
        }),
    decreases steps.len(),
{
    if steps.len() > 0 {
        lemma_approval_is_final(start, steps.drop_last());
    }
}

} // verus!
