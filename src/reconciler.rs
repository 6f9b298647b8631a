//! Decisions of the cluster-wide reconciler.
//!
//! On each tick the reconciler lists the records labelled for cleanup and
//! takes one snapshot of the cluster's members. For each record it marks
//! the pending nodes that are no longer members as decommissioned, reads the
//! record again, and deletes it once cleanup is complete or its time to live
//! has run out.

use vstd::prelude::*;

use crate::mutation::with_all_decommissioned;
use crate::status::{contains_name, lemma_with_name_keeps, names_of, VolumeStatus, VolumeStatusView};

verus! {

/// The instant that an RFC 3339 text names, in whole seconds since the Unix
/// epoch; `None` when the text does not parse.
pub uninterp spec fn rfc3339_seconds(s: Seq<char>) -> Option<i64>;

/// Relies on chrono's `DateTime::parse_from_rfc3339` and
/// `DateTime::timestamp`: the instant the text names, in seconds since the
/// Unix epoch, or `None` when it does not parse.
#[verifier::external_body]
fn parse_rfc3339_seconds(s: &str) -> (r: Option<i64>)
    ensures
        r == rfc3339_seconds(s@),
{
    match chrono::DateTime::parse_from_rfc3339(s) {
        Ok(t) => Some(t.timestamp()),
        Err(_) => None,
    }
}

/// Relies on chrono's `Utc::now` and `DateTime::timestamp`: the current
/// time in seconds since the Unix epoch. Nothing is stated of it, since it
/// depends on the clock.
#[verifier::external_body]
fn now_unix_seconds() -> (r: i64) {
    chrono::Utc::now().timestamp()
}

/// The pending nodes of `v` that are not among `members`, in list order.
pub open spec fn decommission_candidates_of(v: VolumeStatusView, members: Seq<Seq<char>>) -> Seq<Seq<char>> {
    v.pending().filter(|n: Seq<char>| !members.contains(n))
}

/// Why a record may be deleted.
#[derive(Clone, Copy, Debug, PartialEq, Eq, Structural)]
pub enum PruneReason {
    /// Every node that held the volume has reported or is gone.
    Complete,
    /// Cleanup was requested longer ago than the time to live; nodes that
    /// have not reported keep their local data.
    Expired,
}

/// Whether a record whose cleanup was requested at `requested` (seconds
/// since the epoch) has outlived `ttl` seconds at time `now`.
pub open spec fn expired(requested: Option<i64>, now: i64, ttl: Option<u64>) -> bool {
    &&& requested is Some
    &&& ttl is Some
    &&& now - requested.unwrap() >= ttl.unwrap()
}

/// Whether the record `v` may be deleted at time `now`, and why.
pub open spec fn prune_reason_of(v: VolumeStatusView, now: i64, ttl: Option<u64>) -> Option<PruneReason> {
    if v.is_complete() {
        Some(PruneReason::Complete)
    } else if v.cleanup_requested_at matches Some(at) && expired(rfc3339_seconds(at), now, ttl) {
        Some(PruneReason::Expired)
    } else {
        None
    }
}

/// The pending nodes of `status` that are not among the cluster's
/// `members`: those that can never report.
pub fn decommission_candidates(status: &VolumeStatus, members: &Vec<String>) -> (r: Vec<String>)
    ensures
        names_of(&r) == decommission_candidates_of(status@, names_of(members)),
{
    let pending = status.pending_nodes();
    let ghost ms = names_of(members);
    let ghost pred = |n: Seq<char>| !ms.contains(n);
    let mut out: Vec<String> = Vec::new();
    let mut i: usize = 0;
    while i < pending.len()
        invariant
            i <= pending.len(),
            pending.deep_view() == status@.pending(),
            ms == names_of(members),
            pred == (|n: Seq<char>| !ms.contains(n)),
            names_of(&out) == pending.deep_view().take(i as int).filter(pred),
        decreases pending.len() - i,
    {
        let n = pending[i];
        proof {
            reveal(Seq::filter);
            let s = pending.deep_view();
            assert(s.take(i + 1).drop_last() =~= s.take(i as int));
            assert(s.take(i + 1).last() == n@);
        }
        if !contains_name(members, n.as_str()) {
            let ghost before = names_of(&out);
            out.push(n.clone());
            assert(names_of(&out) =~= before.push(n@));
        }
        i += 1;
    }
    assert(pending.deep_view().take(i as int) =~= pending.deep_view());
    out
}

/// Whether `status` may be deleted at time `now` (seconds since the epoch)
/// with time to live `ttl_secs`, and why.
pub fn prune_decision_at(status: &VolumeStatus, now: i64, ttl_secs: Option<u64>) -> (r: Option<PruneReason>)
    ensures
        r == prune_reason_of(status@, now, ttl_secs),
{
    if status.is_cleanup_complete() {
        return Some(PruneReason::Complete);
    }
    match (&status.cleanup_requested_at, ttl_secs) {
        (Some(at), Some(ttl)) => match parse_rfc3339_seconds(at.as_str()) {
            Some(requested) => {
                if (now as i128) - (requested as i128) >= ttl as i128 {
                    Some(PruneReason::Expired)
                } else {
                    None
                }
            },
            None => None,
        },
        _ => None,
    }
}

/// Whether `status` may be deleted now, and why: a complete record always
/// may; an incomplete one only once its time to live has run out.
pub fn prune_decision(status: &VolumeStatus, ttl_secs: Option<u64>) -> (r: Option<PruneReason>)
    ensures
        status@.is_complete() ==> r == Some(PruneReason::Complete),
        !status@.is_complete() ==> r != Some(PruneReason::Complete),
        r == Some(PruneReason::Expired) ==> ttl_secs is Some && status@.cleanup_requested_at is Some,
        ttl_secs is None ==> (r is Some <==> status@.is_complete()),
        exists|now: i64| r == prune_reason_of(status@, now, ttl_secs),
{
    let now = now_unix_seconds();
    prune_decision_at(status, now, ttl_secs)
}

/// Marking nodes decommissioned keeps the nodes that held the volume, the
/// completed and failed nodes and the cleanup request; afterwards every
/// marked node has reported, a node that had reported still has, and a node
/// that had reported as completed or failed is not added to the
/// decommissioned ones.
pub proof fn lemma_decommissioning_adds(v: VolumeStatusView, ns: Seq<Seq<char>>)
    ensures
        with_all_decommissioned(v, ns).volume_id == v.volume_id,
        with_all_decommissioned(v, ns).created_at == v.created_at,
        with_all_decommissioned(v, ns).nodes_with_volume == v.nodes_with_volume,
        with_all_decommissioned(v, ns).nodes_completed == v.nodes_completed,
        with_all_decommissioned(v, ns).nodes_failed == v.nodes_failed,
        with_all_decommissioned(v, ns).cleanup_requested_at == v.cleanup_requested_at,
        forall|n: Seq<char>| #[trigger] ns.contains(n) ==> with_all_decommissioned(v, ns).reported(n),
        forall|n: Seq<char>| v.nodes_decommissioned.contains(n) ==> #[trigger] with_all_decommissioned(v, ns).nodes_decommissioned.contains(n),
        forall|n: Seq<char>| v.reported(n) && !v.nodes_decommissioned.contains(n)
            ==> !#[trigger] with_all_decommissioned(v, ns).nodes_decommissioned.contains(n),
        v.wf() ==> with_all_decommissioned(v, ns).wf(),
    decreases ns.len(),
{
    if ns.len() > 0 {
        let prev = with_all_decommissioned(v, ns.drop_last());
        lemma_decommissioning_adds(v, ns.drop_last());
        let d = prev.nodes_decommissioned;
        let last = ns.last();
        lemma_with_name_keeps(d, last);
        assert forall|n: Seq<char>| v.nodes_decommissioned.contains(n) implies #[trigger] with_all_decommissioned(
            v,
            ns,
        ).nodes_decommissioned.contains(n) by {
            assert(d.contains(n));
        }
        assert forall|n: Seq<char>| #[trigger] ns.contains(n) implies with_all_decommissioned(v, ns).reported(n) by {
            if n != last {
                let k = choose|k: int| 0 <= k < ns.len() && ns[k] == n;
                assert(ns.drop_last()[k] == n);
                assert(ns.drop_last().contains(n));
                assert(prev.reported(n));
            }
        }
    }
}

/// When cleanup was requested and every pending node has left the cluster,
/// marking the candidates decommissioned makes the record complete, so it
/// may be deleted; in any case every candidate has then reported.
pub proof fn lemma_decommissioning_completes(v: VolumeStatusView, members: Seq<Seq<char>>)
    ensures
        forall|n: Seq<char>| #[trigger] decommission_candidates_of(v, members).contains(n)
            ==> with_all_decommissioned(v, decommission_candidates_of(v, members)).reported(n),
        v.cleanup_requested_at is Some && (forall|n: Seq<char>| #[trigger] v.pending().contains(n) ==> !members.contains(n))
            ==> with_all_decommissioned(v, decommission_candidates_of(v, members)).is_complete(),
{
    broadcast use vstd::seq_lib::group_filter_ensures;

    let c = decommission_candidates_of(v, members);
    let w = with_all_decommissioned(v, c);
    lemma_decommissioning_adds(v, c);
    if v.cleanup_requested_at is Some && (forall|n: Seq<char>| #[trigger] v.pending().contains(n) ==> !members.contains(n)) {
        assert forall|n: Seq<char>| #[trigger] w.nodes_with_volume.contains(n) implies w.reported(n) by {
            if !v.reported(n) {
                let k = choose|k: int| 0 <= k < v.nodes_with_volume.len() && v.nodes_with_volume[k] == n;
                v.nodes_with_volume.lemma_filter_contains(v.unreported(), k);
                assert(v.pending().contains(n));
                let j = choose|j: int| 0 <= j < v.pending().len() && v.pending()[j] == n;
                v.pending().lemma_filter_contains(|m: Seq<char>| !members.contains(m), j);
                assert(c.contains(n));
            } else {
                if v.nodes_decommissioned.contains(n) {
                    assert(w.nodes_decommissioned.contains(n));
                }
            }
        }
    }
}

} // verus!
