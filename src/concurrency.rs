//! Two registrations of one volume, interleaved in every possible way
//! against a compare-and-swap store, lose neither node.
//!
//! The store holds at most one record and counts the writes that landed;
//! that count is the record's version. A create lands only on an absent
//! record, a replace only under the current version. Each registrar is an
//! [`UpdateEngine`](crate::engine::UpdateEngine) model together with the
//! action it has asked for and not yet had answered.

use vstd::prelude::*;

use crate::backoff::MAX_RETRIES;
use crate::engine::{
    next, register_plan, PhaseView, StoreActionView, StoreReplyView, UpdateEngineView, UpdateOutcomeView,
    UpdatePlanView,
};
use crate::laws::{keeps, lemma_mutation_only_adds, lemma_occurs_once, occurrences};
use crate::mutation::{mutated, MutationView};
use crate::status::{lemma_with_name_keeps, VolumeStatusView};

verus! {

/// The version token of a record after `k` writes.
pub open spec fn version_text(k: nat) -> Seq<char> {
    Seq::new(k, |i: int| '#')
}

/// A store of one record under compare-and-swap.
pub struct StoreModel {
    pub record: Option<VolumeStatusView>,
    /// Writes that landed so far; the current version.
    pub writes: nat,
}

/// The store after action `a`, and its reply.
pub open spec fn store_step(st: StoreModel, a: StoreActionView) -> (StoreModel, StoreReplyView) {
    match a {
        StoreActionView::Get { .. } => (
            st,
            match st.record {
                Some(r) => StoreReplyView::Found { status: Some(r), version: version_text(st.writes) },
                None => StoreReplyView::Missing,
            },
        ),
        StoreActionView::Create { status, .. } => if st.record is Some {
            (st, StoreReplyView::Conflict)
        } else {
            (StoreModel { record: Some(status), writes: st.writes + 1 }, StoreReplyView::Written)
        },
        StoreActionView::Replace { version, status, .. } => if st.record is None {
            (st, StoreReplyView::Missing)
        } else if version == version_text(st.writes) {
            (StoreModel { record: Some(status), writes: st.writes + 1 }, StoreReplyView::Written)
        } else {
            (st, StoreReplyView::Conflict)
        },
        _ => (st, StoreReplyView::Resume),
    }
}

/// A registrar: its engine and the action it waits to have answered.
pub struct Registrar {
    pub engine: UpdateEngineView,
    pub pending: StoreActionView,
}

/// A registrar that has just started on `plan`.
pub open spec fn registrar_start(plan: UpdatePlanView) -> Registrar {
    let (e, a) = next(UpdateEngineView { plan, attempt: 0, phase: PhaseView::Idle }, StoreReplyView::Resume);
    Registrar { engine: e, pending: a }
}

/// The store answers the registrar's pending action and the registrar takes
/// its next step; a finished registrar does nothing.
pub open spec fn registrar_step(st: StoreModel, g: Registrar) -> (StoreModel, Registrar) {
    if g.pending is Finish {
        (st, g)
    } else {
        let (st2, reply) = store_step(st, g.pending);
        let (e2, a2) = next(g.engine, reply);
        (st2, Registrar { engine: e2, pending: a2 })
    }
}

/// The registrar has finished and its write landed.
pub open spec fn applied(g: Registrar) -> bool {
    g.pending matches StoreActionView::Finish(UpdateOutcomeView::Applied(_))
}

/// The store and both registrars.
pub struct Registrars {
    pub store: StoreModel,
    pub first: Registrar,
    pub second: Registrar,
}

/// The system after the steps in `schedule`: `true` steps the first
/// registrar, `false` the second.
pub open spec fn run(sys: Registrars, schedule: Seq<bool>) -> Registrars
    decreases schedule.len(),
{
    if schedule.len() == 0 {
        sys
    } else {
        let s = run(sys, schedule.drop_last());
        if schedule.last() {
            let (st, g) = registrar_step(s.store, s.first);
            Registrars { store: st, first: g, second: s.second }
        } else {
            let (st, g) = registrar_step(s.store, s.second);
            Registrars { store: st, first: s.first, second: g }
        }
    }
}

/// A record that registrations can work on: no cleanup request, no node
/// twice.
pub open spec fn open_record(r: VolumeStatusView) -> bool {
    r.cleanup_requested_at is None && r.nodes_with_volume.no_duplicates()
}

pub open spec fn store_ok(st: StoreModel) -> bool {
    st.record matches Some(r) ==> open_record(r)
}

/// What holds of a registrar of node `n` with plan `plan` against store
/// `st` at every point of every run.
pub open spec fn registrar_ok(st: StoreModel, g: Registrar, plan: UpdatePlanView, n: Seq<char>) -> bool {
    &&& g.engine.plan == plan
    &&& g.engine.attempt < MAX_RETRIES
    &&& match g.engine.phase {
        PhaseView::Reading => g.pending == (StoreActionView::Get { key: plan.key }),
        PhaseView::Sleeping => g.pending is Backoff,
        PhaseView::Writing(w) => {
            &&& open_record(w)
            &&& w.nodes_with_volume.contains(n)
            &&& match g.pending {
                StoreActionView::Replace { version, status, .. } => {
                    &&& status == w
                    &&& version.len() <= st.writes
                    &&& version == version_text(version.len())
                    &&& version.len() == st.writes ==> (st.record matches Some(r) && w == mutated(
                        r,
                        MutationView::AddNode(n),
                    ))
                },
                StoreActionView::Create { status, .. } => status == w,
                _ => false,
            }
        },
        PhaseView::Done => {
            &&& g.pending is Finish
            &&& applied(g) ==> (st.record matches Some(r) && r.nodes_with_volume.contains(n))
        },
        PhaseView::Idle => false,
    }
}

proof fn lemma_add_to_open(r: VolumeStatusView, n: Seq<char>)
    requires
        open_record(r),
    ensures
        open_record(mutated(r, MutationView::AddNode(n))),
        mutated(r, MutationView::AddNode(n)).nodes_with_volume.contains(n),
        keeps(r, mutated(r, MutationView::AddNode(n))),
{
    lemma_with_name_keeps(r.nodes_with_volume, n);
    lemma_mutation_only_adds(r, MutationView::AddNode(n));
}

/// One step of registrar `g` keeps its own invariant, and keeps the
/// invariant of any other registrar `h` that it does not move.
proof fn lemma_step_keeps(
    st: StoreModel,
    g: Registrar,
    h: Registrar,
    gp: UpdatePlanView,
    gn: Seq<char>,
    hp: UpdatePlanView,
    hn: Seq<char>,
    volume_id: Seq<char>,
    gnow: Seq<char>,
    hnow: Seq<char>,
)
    requires
        gp == register_plan(volume_id, gn, gnow),
        hp == register_plan(volume_id, hn, hnow),
        store_ok(st),
        registrar_ok(st, g, gp, gn),
        registrar_ok(st, h, hp, hn),
    ensures
        store_ok(registrar_step(st, g).0),
        registrar_ok(registrar_step(st, g).0, registrar_step(st, g).1, gp, gn),
        registrar_ok(registrar_step(st, g).0, h, hp, hn),
{
    let fresh = VolumeStatusView::fresh(volume_id, gnow);
    assert(open_record(fresh));
    lemma_add_to_open(fresh, gn);
    if let Some(r) = st.record {
        lemma_add_to_open(r, gn);
    }
    let (st2, g2) = registrar_step(st, g);
    if !(g.pending is Finish) {
        match g.pending {
            StoreActionView::Replace { version, status, .. } => {
                assert(version.len() <= st.writes);
                if st.record is Some && version == version_text(st.writes) {
                    assert(version.len() == st.writes);
                    assert(st2.record == Some(status));
                }
            },
            _ => {},
        }
        // The other registrar: versions it read are now stale when a write
        // landed; anything it applied is still on the record.
        if st2.writes != st.writes {
            assert(st2.writes == st.writes + 1);
            if let Some(r) = st.record {
                assert(keeps(r, st2.record.unwrap()));
            }
        }
    }
}

/// The system where both registrars of `volume_id` have just started, on a
/// store whose record, if any, is open to registrations.
pub open spec fn start(st: StoreModel, volume_id: Seq<char>, a: Seq<char>, b: Seq<char>, now_a: Seq<char>, now_b: Seq<char>) -> Registrars {
    Registrars {
        store: st,
        first: registrar_start(register_plan(volume_id, a, now_a)),
        second: registrar_start(register_plan(volume_id, b, now_b)),
    }
}

proof fn lemma_run_keeps(
    st: StoreModel,
    volume_id: Seq<char>,
    a: Seq<char>,
    b: Seq<char>,
    now_a: Seq<char>,
    now_b: Seq<char>,
    schedule: Seq<bool>,
)
    requires
        store_ok(st),
    ensures
        store_ok(run(start(st, volume_id, a, b, now_a, now_b), schedule).store),
        registrar_ok(
            run(start(st, volume_id, a, b, now_a, now_b), schedule).store,
            run(start(st, volume_id, a, b, now_a, now_b), schedule).first,
            register_plan(volume_id, a, now_a),
            a,
        ),
        registrar_ok(
            run(start(st, volume_id, a, b, now_a, now_b), schedule).store,
            run(start(st, volume_id, a, b, now_a, now_b), schedule).second,
            register_plan(volume_id, b, now_b),
            b,
        ),
    decreases schedule.len(),
{
    let pa = register_plan(volume_id, a, now_a);
    let pb = register_plan(volume_id, b, now_b);
    if schedule.len() > 0 {
        lemma_run_keeps(st, volume_id, a, b, now_a, now_b, schedule.drop_last());
        let s = run(start(st, volume_id, a, b, now_a, now_b), schedule.drop_last());
        if schedule.last() {
            lemma_step_keeps(s.store, s.first, s.second, pa, a, pb, b, volume_id, now_a, now_b);
        } else {
            lemma_step_keeps(s.store, s.second, s.first, pb, b, pa, a, volume_id, now_b, now_a);
        }
    }
}

/// However the steps of two registrations of `volume_id` interleave, on a
/// store whose record, if any, has no cleanup request and no node twice:
/// once both have applied, the record exists and holds each of the two
/// nodes exactly once.
pub proof fn lemma_concurrent_registrations_lose_nothing(
    st: StoreModel,
    volume_id: Seq<char>,
    a: Seq<char>,
    b: Seq<char>,
    now_a: Seq<char>,
    now_b: Seq<char>,
    schedule: Seq<bool>,
)
    requires
        store_ok(st),
    ensures
        ({
            let s = run(start(st, volume_id, a, b, now_a, now_b), schedule);
            applied(s.first) && applied(s.second) ==> (
            s.store.record matches Some(r) && occurrences(r.nodes_with_volume, a) == 1 && occurrences(
                r.nodes_with_volume,
                b,
            ) == 1)
        }),
{
    lemma_run_keeps(st, volume_id, a, b, now_a, now_b, schedule);
    let s = run(start(st, volume_id, a, b, now_a, now_b), schedule);
    if applied(s.first) && applied(s.second) {
        assert(s.first.engine.phase is Done);
        assert(s.second.engine.phase is Done);
        let r = s.store.record.unwrap();
        lemma_occurs_once(r.nodes_with_volume, a);
        lemma_occurs_once(r.nodes_with_volume, b);
    }
}

} // verus!
