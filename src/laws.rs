//! Properties of the cleanup record and of the update engine that hold
//! across calls.

use vstd::prelude::*;

use crate::backoff::MAX_RETRIES;
use crate::engine::{
    exhausted, next, written_label, PhaseView, StoreActionView, StoreReplyView, UpdateEngineView,
    UpdatePlanView, WhenMissing,
};
use crate::mutation::{mutated, MutationView};
use crate::reconciler::lemma_decommissioning_adds;
use crate::status::{lemma_with_name_keeps, VolumeStatusView};

verus! {

/// How many times `n` occurs in `s`.
pub open spec fn occurrences(s: Seq<Seq<char>>, n: Seq<char>) -> nat {
    s.filter(|m: Seq<char>| m == n).len()
}

proof fn lemma_occurs_never(s: Seq<Seq<char>>, n: Seq<char>)
    requires
        !s.contains(n),
    ensures
        occurrences(s, n) == 0,
    decreases s.len(),
{
    reveal(Seq::filter);
    if s.len() > 0 {
        let t = s.drop_last();
        assert(!t.contains(n)) by {
            if t.contains(n) {
                let k = choose|k: int| 0 <= k < t.len() && t[k] == n;
                assert(s[k] == n);
            }
        }
        assert(s[s.len() - 1] != n);
        lemma_occurs_never(t, n);
    }
}

pub proof fn lemma_occurs_once(s: Seq<Seq<char>>, n: Seq<char>)
    requires
        s.no_duplicates(),
        s.contains(n),
    ensures
        occurrences(s, n) == 1,
    decreases s.len(),
{
    reveal(Seq::filter);
    let t = s.drop_last();
    assert(t.no_duplicates());
    if s.last() == n {
        assert(!t.contains(n)) by {
            if t.contains(n) {
                let k = choose|k: int| 0 <= k < t.len() && t[k] == n;
                assert(s[k] == s[s.len() - 1]);
            }
        }
        lemma_occurs_never(t, n);
    } else {
        assert(t.contains(n)) by {
            let k = choose|k: int| 0 <= k < s.len() && s[k] == n;
            assert(t[k] == n);
        }
        lemma_occurs_once(t, n);
    }
}

/// `f` applied `k` times to `v`.
pub open spec fn repeated(f: spec_fn(VolumeStatusView) -> VolumeStatusView, v: VolumeStatusView, k: nat) -> VolumeStatusView
    decreases k,
{
    if k == 0 {
        v
    } else {
        f(repeated(f, v, (k - 1) as nat))
    }
}

proof fn lemma_repeated_once(f: spec_fn(VolumeStatusView) -> VolumeStatusView, v: VolumeStatusView, k: nat)
    requires
        k >= 1,
        f(f(v)) == f(v),
    ensures
        repeated(f, v, k) == f(v),
    decreases k,
{
    assert(repeated(f, v, 0) == v);
    if k > 1 {
        lemma_repeated_once(f, v, (k - 1) as nat);
    }
}

/// Registering a node, or marking it completed, failed or decommissioned, a
/// second time leaves the record as the first call left it; so does a second
/// cleanup request, whatever its time.
pub proof fn lemma_marking_is_idempotent(v: VolumeStatusView, n: Seq<char>, at1: Seq<char>, at2: Seq<char>)
    ensures
        v.with_node(n).with_node(n) == v.with_node(n),
        v.with_completed(n).with_completed(n) == v.with_completed(n),
        v.with_failed(n).with_failed(n) == v.with_failed(n),
        v.with_decommissioned(n).with_decommissioned(n) == v.with_decommissioned(n),
        v.with_cleanup_requested(at1).with_cleanup_requested(at2) == v.with_cleanup_requested(at1),
{
    lemma_with_name_keeps(v.nodes_with_volume, n);
    lemma_with_name_keeps(v.nodes_completed, n);
    lemma_with_name_keeps(v.nodes_failed, n);
    lemma_with_name_keeps(v.nodes_decommissioned, n);
    assert(v.with_completed(n).reported(n));
    assert(v.with_failed(n).reported(n));
    assert(v.with_decommissioned(n).reported(n));
}

/// Registering node `n` `k >= 1` times leaves the record as registering it
/// once. Before cleanup is requested, on a record without duplicates, `n`
/// then stands exactly once among the nodes, whose number grew by one only
/// if `n` was absent; once cleanup is requested nothing changes.
pub proof fn lemma_registering_repeatedly(v: VolumeStatusView, n: Seq<char>, k: nat)
    requires
        k >= 1,
    ensures
        repeated(|w: VolumeStatusView| w.with_node(n), v, k) == v.with_node(n),
        v.cleanup_requested_at is Some ==> v.with_node(n) == v,
        v.cleanup_requested_at is None ==> v.with_node(n).nodes_with_volume.len() == if v.nodes_with_volume.contains(
            n,
        ) {
            v.nodes_with_volume.len()
        } else {
            v.nodes_with_volume.len() + 1
        },
        v.cleanup_requested_at is None && v.nodes_with_volume.no_duplicates() ==> occurrences(
            v.with_node(n).nodes_with_volume,
            n,
        ) == 1,
{
    let f = |w: VolumeStatusView| w.with_node(n);
    lemma_marking_is_idempotent(v, n, Seq::empty(), Seq::empty());
    assert(f(f(v)) == f(v));
    lemma_repeated_once(f, v, k);
    lemma_with_name_keeps(v.nodes_with_volume, n);
    if v.cleanup_requested_at is None && v.nodes_with_volume.no_duplicates() {
        lemma_occurs_once(v.with_node(n).nodes_with_volume, n);
    }
}

/// Marking node `n` completed, failed or decommissioned `k >= 1` times
/// leaves the record as marking it once. If `n` had not reported, on a
/// record without duplicates, it then stands exactly once in the marked
/// list, which grew by exactly one; if it had, nothing changes.
pub proof fn lemma_marking_repeatedly(v: VolumeStatusView, n: Seq<char>, k: nat)
    requires
        k >= 1,
    ensures
        repeated(|w: VolumeStatusView| w.with_completed(n), v, k) == v.with_completed(n),
        repeated(|w: VolumeStatusView| w.with_failed(n), v, k) == v.with_failed(n),
        repeated(|w: VolumeStatusView| w.with_decommissioned(n), v, k) == v.with_decommissioned(n),
        v.reported(n) ==> v.with_completed(n) == v && v.with_failed(n) == v && v.with_decommissioned(n) == v,
        !v.reported(n) ==> v.with_completed(n).nodes_completed.len() == v.nodes_completed.len() + 1,
        !v.reported(n) ==> v.with_failed(n).nodes_failed.len() == v.nodes_failed.len() + 1,
        !v.reported(n) ==> v.with_decommissioned(n).nodes_decommissioned.len() == v.nodes_decommissioned.len() + 1,
        !v.reported(n) && v.wf() ==> occurrences(v.with_completed(n).nodes_completed, n) == 1,
        !v.reported(n) && v.wf() ==> occurrences(v.with_failed(n).nodes_failed, n) == 1,
        !v.reported(n) && v.wf() ==> occurrences(v.with_decommissioned(n).nodes_decommissioned, n) == 1,
{
    lemma_marking_is_idempotent(v, n, Seq::empty(), Seq::empty());
    let fc = |w: VolumeStatusView| w.with_completed(n);
    let ff = |w: VolumeStatusView| w.with_failed(n);
    let fd = |w: VolumeStatusView| w.with_decommissioned(n);
    assert(fc(fc(v)) == fc(v));
    assert(ff(ff(v)) == ff(v));
    assert(fd(fd(v)) == fd(v));
    lemma_repeated_once(fc, v, k);
    lemma_repeated_once(ff, v, k);
    lemma_repeated_once(fd, v, k);
    lemma_with_name_keeps(v.nodes_completed, n);
    lemma_with_name_keeps(v.nodes_failed, n);
    lemma_with_name_keeps(v.nodes_decommissioned, n);
    if !v.reported(n) && v.wf() {
        lemma_occurs_once(v.with_completed(n).nodes_completed, n);
        lemma_occurs_once(v.with_failed(n).nodes_failed, n);
        lemma_occurs_once(v.with_decommissioned(n).nodes_decommissioned, n);
    }
}

/// Every transition keeps the record well formed: no duplicates, and no
/// node in two reported lists.
pub proof fn lemma_transitions_keep_wf(v: VolumeStatusView, n: Seq<char>, at: Seq<char>)
    requires
        v.wf(),
    ensures
        v.with_node(n).wf(),
        v.with_completed(n).wf(),
        v.with_failed(n).wf(),
        v.with_decommissioned(n).wf(),
        v.with_cleanup_requested(at).wf(),
{
    lemma_with_name_keeps(v.nodes_with_volume, n);
    lemma_with_name_keeps(v.nodes_completed, n);
    lemma_with_name_keeps(v.nodes_failed, n);
    lemma_with_name_keeps(v.nodes_decommissioned, n);
}

/// Every mutation keeps the record well formed.
pub proof fn lemma_mutation_keeps_wf(v: VolumeStatusView, m: MutationView)
    requires
        v.wf(),
    ensures
        mutated(v, m).wf(),
{
    match m {
        MutationView::AddNode(n) => lemma_transitions_keep_wf(v, n, Seq::empty()),
        MutationView::RequestCleanup(at) => lemma_transitions_keep_wf(v, Seq::empty(), at),
        MutationView::MarkCompleted(n) => lemma_transitions_keep_wf(v, n, Seq::empty()),
        MutationView::MarkFailed(n) => lemma_transitions_keep_wf(v, n, Seq::empty()),
        MutationView::MarkDecommissioned(ns) => lemma_decommissioning_adds(v, ns),
    }
}

/// For a record whose nodes are exactly `a` and `b`: without a cleanup
/// request it is not complete; with one, it is complete exactly when both
/// `a` and `b` appear among the completed, failed or decommissioned nodes, in
/// any combination.
pub proof fn lemma_completion_of_two_nodes(v: VolumeStatusView, a: Seq<char>, b: Seq<char>, at: Seq<char>)
    requires
        v.nodes_with_volume.to_set() == set![a, b],
    ensures
        v.cleanup_requested_at is None ==> !v.is_complete(),
        v.with_cleanup_requested(at).is_complete() <==> (v.reported(a) && v.reported(b)),
{
    let w = v.with_cleanup_requested(at);
    assert(v.nodes_with_volume.contains(a)) by {
        assert(v.nodes_with_volume.to_set().contains(a));
    }
    assert(v.nodes_with_volume.contains(b)) by {
        assert(v.nodes_with_volume.to_set().contains(b));
    }
    assert(w.nodes_with_volume == v.nodes_with_volume);
    assert(w.reported(a) == v.reported(a));
    assert(w.reported(b) == v.reported(b));
    assert(w.nodes_with_volume.contains(a));
    assert(w.nodes_with_volume.contains(b));
    if v.reported(a) && v.reported(b) {
        assert forall|n: Seq<char>| #[trigger] w.nodes_with_volume.contains(n) implies w.reported(n) by {
            assert(v.nodes_with_volume.to_set().contains(n));
        }
    }
}

/// The state a mutation never takes away: the record's identity and
/// creation time, a cleanup request, and every node in every list.
pub open spec fn keeps(v: VolumeStatusView, w: VolumeStatusView) -> bool {
    &&& w.volume_id == v.volume_id
    &&& w.created_at == v.created_at
    &&& v.cleanup_requested_at is Some ==> w.cleanup_requested_at == v.cleanup_requested_at
    &&& forall|n: Seq<char>| #[trigger] v.nodes_with_volume.contains(n) ==> w.nodes_with_volume.contains(n)
    &&& forall|n: Seq<char>| #[trigger] v.nodes_completed.contains(n) ==> w.nodes_completed.contains(n)
    &&& forall|n: Seq<char>| #[trigger] v.nodes_failed.contains(n) ==> w.nodes_failed.contains(n)
    &&& forall|n: Seq<char>| #[trigger] v.nodes_decommissioned.contains(n) ==> w.nodes_decommissioned.contains(n)
}

/// A mutation only adds: whatever a record held, the mutated record holds
/// too. So the nodes that held a volume are never forgotten, and a report
/// or a cleanup request is never withdrawn.
pub proof fn lemma_mutation_only_adds(v: VolumeStatusView, m: MutationView)
    ensures
        keeps(v, mutated(v, m)),
{
    match m {
        MutationView::AddNode(n) => lemma_with_name_keeps(v.nodes_with_volume, n),
        MutationView::RequestCleanup(_) => {},
        MutationView::MarkCompleted(n) => lemma_with_name_keeps(v.nodes_completed, n),
        MutationView::MarkFailed(n) => lemma_with_name_keeps(v.nodes_failed, n),
        MutationView::MarkDecommissioned(ns) => lemma_decommissioning_adds(v, ns),
    }
}

/// Two nodes registering on one record before its cleanup is requested, in
/// whichever order their writes land, leave both nodes on it, with
/// everything the record held before.
pub proof fn lemma_registrations_are_not_lost(v: VolumeStatusView, a: Seq<char>, b: Seq<char>)
    requires
        v.cleanup_requested_at is None,
    ensures
        mutated(mutated(v, MutationView::AddNode(a)), MutationView::AddNode(b)).nodes_with_volume.contains(a),
        mutated(mutated(v, MutationView::AddNode(a)), MutationView::AddNode(b)).nodes_with_volume.contains(b),
        mutated(mutated(v, MutationView::AddNode(b)), MutationView::AddNode(a)).nodes_with_volume.contains(a),
        mutated(mutated(v, MutationView::AddNode(b)), MutationView::AddNode(a)).nodes_with_volume.contains(b),
        keeps(v, mutated(mutated(v, MutationView::AddNode(a)), MutationView::AddNode(b))),
        keeps(v, mutated(mutated(v, MutationView::AddNode(b)), MutationView::AddNode(a))),
{
    let va = mutated(v, MutationView::AddNode(a));
    let vb = mutated(v, MutationView::AddNode(b));
    lemma_mutation_only_adds(v, MutationView::AddNode(a));
    lemma_mutation_only_adds(v, MutationView::AddNode(b));
    lemma_mutation_only_adds(va, MutationView::AddNode(b));
    lemma_mutation_only_adds(vb, MutationView::AddNode(a));
    lemma_with_name_keeps(v.nodes_with_volume, a);
    lemma_with_name_keeps(v.nodes_with_volume, b);
    lemma_with_name_keeps(va.nodes_with_volume, b);
    lemma_with_name_keeps(vb.nodes_with_volume, a);
}

/// A complete record stays complete under any mutation: reports and
/// cleanup requests only add, and once cleanup is requested no node is
/// added.
pub proof fn lemma_completion_is_stable(v: VolumeStatusView, m: MutationView)
    requires
        v.is_complete(),
    ensures
        mutated(v, m).is_complete(),
{
    let w = mutated(v, m);
    lemma_mutation_only_adds(v, m);
    match m {
        MutationView::AddNode(n) => {},
        MutationView::MarkDecommissioned(ns) => lemma_decommissioning_adds(v, ns),
        _ => {},
    }
    assert(w.nodes_with_volume == v.nodes_with_volume);
    assert forall|n: Seq<char>| #[trigger] w.nodes_with_volume.contains(n) implies w.reported(n) by {
        assert(v.reported(n));
    }
}

/// `ms` applied in order to `v`.
pub open spec fn mutated_all(v: VolumeStatusView, ms: Seq<MutationView>) -> VolumeStatusView
    decreases ms.len(),
{
    if ms.len() == 0 {
        v
    } else {
        mutated(mutated_all(v, ms.drop_last()), ms.last())
    }
}

/// Once complete, a record stays complete under any further sequence of
/// mutations: re-marking nodes, repeated cleanup requests, registrations.
pub proof fn lemma_completion_survives(v: VolumeStatusView, ms: Seq<MutationView>)
    requires
        v.is_complete(),
    ensures
        mutated_all(v, ms).is_complete(),
    decreases ms.len(),
{
    if ms.len() > 0 {
        lemma_completion_survives(v, ms.drop_last());
        lemma_completion_is_stable(mutated_all(v, ms.drop_last()), ms.last());
    }
}

/// A read that makes the engine write: a parsed record, or an absent one
/// that the plan creates from its fresh record.
pub open spec fn leads_to_write(plan: UpdatePlanView, read: StoreReplyView) -> bool {
    ||| read matches StoreReplyView::Found { status: Some(_), .. }
    ||| (read is Missing && plan.when_missing == WhenMissing::Create && plan.fresh is Some)
}

/// One read-mutate-write cycle that ends in a conflict: resume, get `read`
/// back, meet a conflict on the write.
pub open spec fn conflict_round(e: UpdateEngineView, read: StoreReplyView) -> (UpdateEngineView, StoreActionView) {
    let e1 = next(e, StoreReplyView::Resume).0;
    let e2 = next(e1, read).0;
    next(e2, StoreReplyView::Conflict)
}

/// The engine and its last action after one conflicting cycle per read in
/// `reads`, from a fresh start on `plan`.
pub open spec fn after_conflicts(plan: UpdatePlanView, reads: Seq<StoreReplyView>) -> (UpdateEngineView, StoreActionView)
    decreases reads.len(),
{
    if reads.len() <= 1 {
        conflict_round(UpdateEngineView { plan, attempt: 0, phase: PhaseView::Idle }, reads[0])
    } else {
        conflict_round(after_conflicts(plan, reads.drop_last()).0, reads.last())
    }
}

/// A cycle from a resumable state reads afresh, writes the mutation of what
/// it read under the version it read, and after a conflict either backs off
/// with one more attempt counted or, on the last attempt, finishes as the
/// plan says for exhausted retries.
pub proof fn lemma_conflict_round(e: UpdateEngineView, read: StoreReplyView)
    requires
        e.phase is Idle || e.phase is Sleeping,
        e.attempt < MAX_RETRIES,
        leads_to_write(e.plan, read),
    ensures
        next(e, StoreReplyView::Resume).1 == (StoreActionView::Get { key: e.plan.key }),
        next(next(e, StoreReplyView::Resume).0, read).0.phase is Writing,
        read matches StoreReplyView::Found { status: Some(s), version } ==> next(
            next(e, StoreReplyView::Resume).0,
            read,
        ).1 == (StoreActionView::Replace {
            key: e.plan.key,
            version,
            label: written_label(e.plan.label, mutated(s, e.plan.mutation)),
            status: mutated(s, e.plan.mutation),
        }),
        e.attempt + 1 < MAX_RETRIES ==> conflict_round(e, read) == (
            UpdateEngineView { attempt: (e.attempt + 1) as u32, phase: PhaseView::Sleeping, ..e },
            StoreActionView::Backoff { attempt: e.attempt },
        ),
        e.attempt + 1 >= MAX_RETRIES ==> conflict_round(e, read) == (
            UpdateEngineView { phase: PhaseView::Done, ..e },
            StoreActionView::Finish(exhausted(e.plan.when_exhausted)),
        ),
{
}

/// Under repeated conflicts an update neither hangs nor lands, whatever
/// each fresh read returns: after `k` conflicting cycles, `k` below the
/// retry limit, it is backing off with `k` attempts counted; after exactly
/// `MAX_RETRIES` of them it has finished with the plan's outcome for
/// exhausted retries.
pub proof fn lemma_conflicts_exhaust_retries(plan: UpdatePlanView, reads: Seq<StoreReplyView>)
    requires
        1 <= reads.len() <= MAX_RETRIES,
        forall|i: int| 0 <= i < reads.len() ==> leads_to_write(plan, #[trigger] reads[i]),
    ensures
        reads.len() < MAX_RETRIES ==> after_conflicts(plan, reads).0 == (UpdateEngineView {
            plan,
            attempt: reads.len() as u32,
            phase: PhaseView::Sleeping,
        }),
        reads.len() < MAX_RETRIES ==> after_conflicts(plan, reads).1 == (StoreActionView::Backoff {
            attempt: (reads.len() - 1) as u32,
        }),
        reads.len() == MAX_RETRIES ==> after_conflicts(plan, reads).0.phase is Done,
        reads.len() == MAX_RETRIES ==> after_conflicts(plan, reads).1 == StoreActionView::Finish(
            exhausted(plan.when_exhausted),
        ),
    decreases reads.len(),
{
    if reads.len() <= 1 {
        assert(leads_to_write(plan, reads[0]));
        lemma_conflict_round(UpdateEngineView { plan, attempt: 0, phase: PhaseView::Idle }, reads[0]);
    } else {
        let prefix = reads.drop_last();
        assert forall|i: int| 0 <= i < prefix.len() implies leads_to_write(plan, #[trigger] prefix[i]) by {
            assert(prefix[i] == reads[i]);
        }
        lemma_conflicts_exhaust_retries(plan, prefix);
        assert(leads_to_write(plan, reads[reads.len() - 1]));
        lemma_conflict_round(after_conflicts(plan, prefix).0, reads.last());
    }
}

} // verus!
