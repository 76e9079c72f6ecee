//! The two hashing protocols of an incident anchor: the bundle root, which
//! commits to the six artifact hashes in their canonical order, and the event
//! chain, a rolling digest in which every head depends on all earlier events.

use vstd::prelude::*;

verus! {

/// The SHA-256 digest of `data`.
///
/// The digest is computed by `anchor_lang::solana_program::hash::hash`; this
/// name stands for its result and nothing is proved about its value.
pub uninterp spec fn sha256(data: Seq<u8>) -> Seq<u8>;

/// Calls `anchor_lang::solana_program::hash::hash` on `data` and returns the
/// 32 bytes of the `Hash` it gives (`Hash::to_bytes`).
///
/// Trusted: the outcome is the SHA-256 digest of exactly the bytes of `data`,
/// the same for equal inputs.
#[verifier::external_body]
fn sha256_digest(data: &[u8]) -> (out: [u8; 32])
    ensures
        out@ == sha256(data@),
{
    anchor_lang::solana_program::hash::hash(data).to_bytes()
}

/// Two different byte strings with the same SHA-256 digest.
pub open spec fn sha256_collision(x: Seq<u8>, y: Seq<u8>) -> bool {
    x != y && sha256(x) == sha256(y)
}

/// Six digests of 32 bytes each: the artifact hashes in canonical order
/// (core, evidence, contradictions, trust receipt, decisions, timeline).
pub open spec fn is_artifact_hashes(hashes: Seq<Seq<u8>>) -> bool {
    &&& hashes.len() == 6
    &&& forall|i: int| 0 <= i < 6 ==> (#[trigger] hashes[i]).len() == 32
}

/// The bytes that the bundle root digests: the six hashes, one after the
/// other, in canonical order.
pub open spec fn bundle_preimage(hashes: Seq<Seq<u8>>) -> Seq<u8> {
    hashes[0] + hashes[1] + hashes[2] + hashes[3] + hashes[4] + hashes[5]
}

/// The bundle root of six artifact hashes.
pub open spec fn bundle_root_of(hashes: Seq<Seq<u8>>) -> Seq<u8> {
    sha256(bundle_preimage(hashes))
}

/// The chain head that follows `prev` once `event` is appended.
pub open spec fn chain_step_of(prev: Seq<u8>, event: Seq<u8>) -> Seq<u8> {
    sha256(prev + event)
}

/// The chain head reached from `head` after appending `events` in order.
pub open spec fn chain_fold(head: Seq<u8>, events: Seq<Seq<u8>>) -> Seq<u8>
    decreases events.len(),
{
    if events.len() == 0 {
        head
    } else {
        chain_step_of(chain_fold(head, events.drop_last()), events.last())
    }
}

/// The views of a list of digests, in the same order.
pub open spec fn digest_views(events: Seq<[u8; 32]>) -> Seq<Seq<u8>> {
    events.map_values(|e: [u8; 32]| e@)
}

/// Determinism: the bundle root and the chain step depend on nothing but the
/// hashes that they are given. Equal hashes in the same places give equal
/// digests.
pub proof fn lemma_digests_are_deterministic(
    hashes: Seq<Seq<u8>>,
    same_hashes: Seq<Seq<u8>>,
    prev: Seq<u8>,
    same_prev: Seq<u8>,
    event: Seq<u8>,
    same_event: Seq<u8>,
)
    requires
        forall|i: int| 0 <= i < 6 ==> hashes[i] == same_hashes[i],
        prev == same_prev,
        event == same_event,
    ensures
        bundle_root_of(hashes) == bundle_root_of(same_hashes),
        chain_step_of(prev, event) == chain_step_of(same_prev, same_event),
{
    assert(hashes[0] == same_hashes[0]);
    assert(hashes[1] == same_hashes[1]);
    assert(hashes[2] == same_hashes[2]);
    assert(hashes[3] == same_hashes[3]);
    assert(hashes[4] == same_hashes[4]);
    assert(hashes[5] == same_hashes[5]);
}

/// A rearrangement of the six positions: `order[i]` is the position whose
/// hash is moved to position `i`.
pub open spec fn is_rearrangement(order: Seq<int>) -> bool {
    &&& order.len() == 6
    &&& forall|i: int| 0 <= i < 6 ==> 0 <= #[trigger] order[i] < 6
    &&& forall|i: int, j: int| 0 <= i < j < 6 ==> order[i] != order[j]
}

/// The six hashes in the order that `order` gives.
pub open spec fn rearranged(hashes: Seq<Seq<u8>>, order: Seq<int>) -> Seq<Seq<u8>> {
    Seq::new(6, |i: int| hashes[order[i]])
}

/// No two of the six hashes are equal.
pub open spec fn pairwise_distinct(hashes: Seq<Seq<u8>>) -> bool {
    forall|i: int, j: int| 0 <= i < j < 6 ==> hashes[i] != hashes[j]
}

/// The digested bytes determine the six hashes and their order: two lists of
/// artifact hashes with the same preimage are the same list.
pub proof fn lemma_bundle_preimage_injective(a: Seq<Seq<u8>>, b: Seq<Seq<u8>>)
    requires
        is_artifact_hashes(a),
        is_artifact_hashes(b),
        bundle_preimage(a) == bundle_preimage(b),
    ensures
        a == b,
{
    let pa = bundle_preimage(a);
    let pb = bundle_preimage(b);
    assert forall|k: int| 0 <= k < 6 implies a[k] == b[k] by {
        assert(a[k] =~= pa.subrange(32 * k, 32 * k + 32));
        assert(b[k] =~= pb.subrange(32 * k, 32 * k + 32));
    }
    assert(a =~= b);
}

/// The bundle root binds the six hashes and their order: two lists of
/// artifact hashes with the same bundle root are the same list, unless their
/// preimages are a SHA-256 collision.
pub proof fn lemma_bundle_root_binds(a: Seq<Seq<u8>>, b: Seq<Seq<u8>>)
    requires
        is_artifact_hashes(a),
        is_artifact_hashes(b),
        bundle_root_of(a) == bundle_root_of(b),
    ensures
        a == b || sha256_collision(bundle_preimage(a), bundle_preimage(b)),
{
    if bundle_preimage(a) == bundle_preimage(b) {
        lemma_bundle_preimage_injective(a, b);
    }
}

/// Order sensitivity: rearranging six pairwise distinct artifact hashes in
/// any way but leaving each in its place changes the bundle root, unless the
/// two preimages are a SHA-256 collision.
pub proof fn lemma_bundle_root_order_sensitive(hashes: Seq<Seq<u8>>, order: Seq<int>)
    requires
        is_artifact_hashes(hashes),
        pairwise_distinct(hashes),
        is_rearrangement(order),
        exists|i: int| 0 <= i < 6 && order[i] != i,
        !sha256_collision(bundle_preimage(hashes), bundle_preimage(rearranged(hashes, order))),
    ensures
        bundle_root_of(rearranged(hashes, order)) != bundle_root_of(hashes),
{
    let moved = choose|i: int| 0 <= i < 6 && order[i] != i;
    let other = rearranged(hashes, order);
    assert(other[moved] == hashes[order[moved]]);
    assert(other[moved] != hashes[moved]);
    assert forall|i: int| 0 <= i < 6 implies (#[trigger] other[i]).len() == 32 by {
        assert(other[i] == hashes[order[i]]);
    }
    if bundle_root_of(other) == bundle_root_of(hashes) {
        lemma_bundle_root_binds(other, hashes);
    }
}

/// Lays out the bytes that the bundle root digests: the six artifact hashes,
/// one after the other, in canonical order.
pub fn bundle_preimage_bytes(
    incident_core: &[u8; 32],
    evidence_set: &[u8; 32],
    contradictions: &[u8; 32],
    trust_receipt: &[u8; 32],
    operator_decisions: &[u8; 32],
    timeline: &[u8; 32],
) -> (data: Vec<u8>)
    ensures
        data@ == bundle_preimage(
            seq![
                incident_core@,
                evidence_set@,
                contradictions@,
                trust_receipt@,
                operator_decisions@,
                timeline@,
            ],
        ),
        data@.len() == 192,
{
    let mut data: Vec<u8> = Vec::with_capacity(192);
    data.extend_from_slice(incident_core.as_slice());
    data.extend_from_slice(evidence_set.as_slice());
    data.extend_from_slice(contradictions.as_slice());
    data.extend_from_slice(trust_receipt.as_slice());
    data.extend_from_slice(operator_decisions.as_slice());
    data.extend_from_slice(timeline.as_slice());
    proof {
        let hashes = seq![
            incident_core@,
            evidence_set@,
            contradictions@,
            trust_receipt@,
            operator_decisions@,
            timeline@,
        ];
        assert(data@ =~= bundle_preimage(hashes));
    }
    data
}

/// Lays out the bytes that a chain step digests: the previous head, then
/// the event hash.
pub fn chain_preimage_bytes(prev_head: &[u8; 32], event_hash: &[u8; 32]) -> (data: Vec<u8>)
    ensures
        data@ == prev_head@ + event_hash@,
        data@.len() == 64,
{
    let mut data: Vec<u8> = Vec::with_capacity(64);
    data.extend_from_slice(prev_head.as_slice());
    data.extend_from_slice(event_hash.as_slice());
    assert(data@ =~= prev_head@ + event_hash@);
    data
}

/// Computes the bundle root: the digest of the six artifact hashes
/// concatenated in canonical order.
pub fn bundle_root(
    incident_core: &[u8; 32],
    evidence_set: &[u8; 32],
    contradictions: &[u8; 32],
    trust_receipt: &[u8; 32],
    operator_decisions: &[u8; 32],
    timeline: &[u8; 32],
) -> (root: [u8; 32])
    ensures
        root@ == bundle_root_of(
            seq![
                incident_core@,
                evidence_set@,
                contradictions@,
                trust_receipt@,
                operator_decisions@,
                timeline@,
            ],
        ),
{
    let data = bundle_preimage_bytes(
        incident_core,
        evidence_set,
        contradictions,
        trust_receipt,
        operator_decisions,
        timeline,
    );
    sha256_digest(data.as_slice())
}

/// Computes the next chain head: the digest of the previous head followed by
/// the event hash.
pub fn chain_step(prev_head: &[u8; 32], event_hash: &[u8; 32]) -> (head: [u8; 32])
    ensures
        head@ == chain_step_of(prev_head@, event_hash@),
{
    let data = chain_preimage_bytes(prev_head, event_hash);
    sha256_digest(data.as_slice())
}

/// Recomputes a chain head from the first event hash and the event hashes
/// appended after it, in append order. With no appended event the head is
/// the first event hash itself.
pub fn replay_chain(first_event_hash: [u8; 32], appended: &Vec<[u8; 32]>) -> (head: [u8; 32])
    ensures
        head@ == chain_fold(first_event_hash@, digest_views(appended@)),
{
    let mut head = first_event_hash;
    let mut i: usize = 0;
    while i < appended.len()
        invariant
            i <= appended.len(),
            head@ == chain_fold(first_event_hash@, digest_views(appended@.take(i as int))),
        decreases appended.len() - i,
    {
        head = chain_step(&head, &appended[i]);
        proof {
            let done = digest_views(appended@.take(i as int));
            let next = digest_views(appended@.take(i + 1));
            assert(next.drop_last() =~= done);
            assert(next.last() == appended@[i as int]@);
        }
        i += 1;
    }
    assert(appended@.take(i as int) =~= appended@);
    head
}

} // verus!
