//! The optimistic update engine: read a record, apply a mutation, write it
//! back under the version that was read, and start over after a conflict.
//!
//! The engine makes the decisions; its caller talks to the store. Each call
//! of [`UpdateEngine::step`] hands in what the store answered and gets back
//! what to do next.

use vstd::prelude::*;

use crate::backoff::MAX_RETRIES;
use crate::mutation::{mutated, Mutation, MutationView};
use crate::status::{
    configmap_name, copy_names, names_of, now_rfc3339, VolumeStatus, VolumeStatusView, VOLUME_CM_PREFIX,
};

verus! {

/// The discovery label that a write puts on a record.
#[derive(Clone, Copy, Debug, PartialEq, Eq, Structural)]
pub enum RecordLabel {
    /// Published, not yet deleted.
    Active,
    /// Deletion requested.
    Cleanup,
}

impl RecordLabel {
    /// The label's value under [`VOLUME_LABEL`](crate::status::VOLUME_LABEL).
    pub fn value(&self) -> (r: &'static str)
        ensures
            *self == RecordLabel::Active ==> r@ == "active"@,
            *self == RecordLabel::Cleanup ==> r@ == "cleanup"@,
    {
        match self {
            RecordLabel::Active => "active",
            RecordLabel::Cleanup => "cleanup",
        }
    }
}

/// What to do when the record is absent.
#[derive(Clone, Copy, Debug, PartialEq, Eq, Structural)]
pub enum WhenMissing {
    /// Create it from the plan's fresh record.
    Create,
    /// Nothing to do; not an error.
    Ignore,
    /// Report a not-found error.
    Fail,
}

/// What to do when every attempt met a conflict.
#[derive(Clone, Copy, Debug, PartialEq, Eq, Structural)]
pub enum WhenExhausted {
    /// Report a conflict error.
    Fail,
    /// Give up without an error (status reports must not fail the work
    /// they report on).
    GiveUp,
}

/// One update to run through the engine.
pub struct UpdatePlan {
    /// The record's key.
    pub key: String,
    /// The label to write, which becomes the cleanup label on a record whose
    /// cleanup is requested; `None` keeps the labels the record was read
    /// with.
    pub label: Option<RecordLabel>,
    pub when_missing: WhenMissing,
    /// The record to create from when the stored one is absent and
    /// `when_missing` is `Create`. A stored record that cannot be parsed is
    /// always skipped, never overwritten.
    pub fresh: Option<VolumeStatus>,
    pub when_exhausted: WhenExhausted,
    pub mutation: Mutation,
}

pub struct UpdatePlanView {
    pub key: Seq<char>,
    pub label: Option<RecordLabel>,
    pub when_missing: WhenMissing,
    pub fresh: Option<VolumeStatusView>,
    pub when_exhausted: WhenExhausted,
    pub mutation: MutationView,
}

pub open spec fn status_opt_view(s: Option<VolumeStatus>) -> Option<VolumeStatusView> {
    match s {
        Some(v) => Some(v@),
        None => None,
    }
}

impl View for UpdatePlan {
    type V = UpdatePlanView;

    open spec fn view(&self) -> UpdatePlanView {
        UpdatePlanView {
            key: self.key@,
            label: self.label,
            when_missing: self.when_missing,
            fresh: status_opt_view(self.fresh),
            when_exhausted: self.when_exhausted,
            mutation: self.mutation@,
        }
    }
}

/// Registration of `node_name` on a volume: add it to the nodes (which
/// changes nothing once cleanup is requested), create the record if absent,
/// label the record active unless its cleanup is requested.
pub open spec fn register_plan(volume_id: Seq<char>, node_name: Seq<char>, now: Seq<char>) -> UpdatePlanView {
    UpdatePlanView {
        key: VOLUME_CM_PREFIX@ + volume_id,
        label: Some(RecordLabel::Active),
        when_missing: WhenMissing::Create,
        fresh: Some(VolumeStatusView::fresh(volume_id, now)),
        when_exhausted: WhenExhausted::Fail,
        mutation: MutationView::AddNode(node_name),
    }
}

/// A cleanup request for a volume: set the request time unless set, label
/// the record for cleanup; an absent record means there is nothing to clean.
pub open spec fn cleanup_plan(volume_id: Seq<char>, now: Seq<char>) -> UpdatePlanView {
    UpdatePlanView {
        key: VOLUME_CM_PREFIX@ + volume_id,
        label: Some(RecordLabel::Cleanup),
        when_missing: WhenMissing::Ignore,
        fresh: None,
        when_exhausted: WhenExhausted::Fail,
        mutation: MutationView::RequestCleanup(now),
    }
}

/// A node's report on its local deletion, written to the record under
/// `key` with its labels kept; an unreadable record is skipped, and
/// exhausted retries are given up quietly.
pub open spec fn report_plan(key: Seq<char>, node_name: Seq<char>, success: bool) -> UpdatePlanView {
    UpdatePlanView {
        key,
        label: None,
        when_missing: WhenMissing::Fail,
        fresh: None,
        when_exhausted: WhenExhausted::GiveUp,
        mutation: if success {
            MutationView::MarkCompleted(node_name)
        } else {
            MutationView::MarkFailed(node_name)
        },
    }
}

/// Marking `nodes` decommissioned on the record under `key`, labels kept;
/// an unreadable record is skipped, and exhausted retries are given up
/// quietly.
pub open spec fn decommission_plan(key: Seq<char>, nodes: Seq<Seq<char>>) -> UpdatePlanView {
    UpdatePlanView {
        key,
        label: None,
        when_missing: WhenMissing::Fail,
        fresh: None,
        when_exhausted: WhenExhausted::GiveUp,
        mutation: MutationView::MarkDecommissioned(nodes),
    }
}

impl UpdatePlan {
    /// The plan that registers `node_name` on `volume_id`, with `now` as the
    /// creation time of a new record.
    pub fn register_node_publish_at(volume_id: &str, node_name: &str, now: &str) -> (r: UpdatePlan)
        ensures
            r@ == register_plan(volume_id@, node_name@, now@),
    {
        UpdatePlan {
            key: configmap_name(volume_id),
            label: Some(RecordLabel::Active),
            when_missing: WhenMissing::Create,
            fresh: Some(VolumeStatus::created(volume_id, now)),
            when_exhausted: WhenExhausted::Fail,
            mutation: Mutation::AddNode(node_name.to_owned()),
        }
    }

    /// The plan that registers `node_name` on `volume_id`, stamped now.
    pub fn register_node_publish(volume_id: &str, node_name: &str) -> (r: UpdatePlan)
        ensures
            exists|now: Seq<char>| r@ == register_plan(volume_id@, node_name@, now),
    {
        let now = now_rfc3339();
        UpdatePlan::register_node_publish_at(volume_id, node_name, now.as_str())
    }

    /// The plan that requests cleanup of `volume_id` at time `now`.
    pub fn mark_volume_for_cleanup_at(volume_id: &str, now: &str) -> (r: UpdatePlan)
        ensures
            r@ == cleanup_plan(volume_id@, now@),
    {
        UpdatePlan {
            key: configmap_name(volume_id),
            label: Some(RecordLabel::Cleanup),
            when_missing: WhenMissing::Ignore,
            fresh: None,
            when_exhausted: WhenExhausted::Fail,
            mutation: Mutation::RequestCleanup(now.to_owned()),
        }
    }

    /// The plan that requests cleanup of `volume_id` now.
    pub fn mark_volume_for_cleanup(volume_id: &str) -> (r: UpdatePlan)
        ensures
            exists|now: Seq<char>| r@ == cleanup_plan(volume_id@, now),
    {
        let now = now_rfc3339();
        UpdatePlan::mark_volume_for_cleanup_at(volume_id, now.as_str())
    }

    /// The plan that reports `node_name`'s local deletion on the record
    /// under `key`.
    pub fn mark_node_cleanup_complete(key: &str, node_name: &str, success: bool) -> (r: UpdatePlan)
        ensures
            r@ == report_plan(key@, node_name@, success),
    {
        UpdatePlan {
            key: key.to_owned(),
            label: None,
            when_missing: WhenMissing::Fail,
            fresh: None,
            when_exhausted: WhenExhausted::GiveUp,
            mutation: Mutation::node_report(node_name, success),
        }
    }

    /// The plan that marks `nodes` decommissioned on the record under `key`.
    pub fn mark_decommissioned_nodes(key: &str, nodes: &Vec<String>) -> (r: UpdatePlan)
        ensures
            r@ == decommission_plan(key@, names_of(nodes)),
    {
        UpdatePlan {
            key: key.to_owned(),
            label: None,
            when_missing: WhenMissing::Fail,
            fresh: None,
            when_exhausted: WhenExhausted::GiveUp,
            mutation: Mutation::MarkDecommissioned(copy_names(nodes)),
        }
    }
}

/// What the store answered to the last action, or `Resume` to start and to
/// go on after a backoff.
pub enum StoreReply {
    Resume,
    /// The record was read: its state (`None` when it cannot be parsed) and
    /// its version token.
    Found { status: Option<VolumeStatus>, version: String },
    /// No record under the key.
    Missing,
    /// The create or replace landed.
    Written,
    /// The version was stale, or the record was created meanwhile.
    Conflict,
    /// The store could not be reached or refused for another reason.
    Unavailable(String),
}

pub enum StoreReplyView {
    Resume,
    Found { status: Option<VolumeStatusView>, version: Seq<char> },
    Missing,
    Written,
    Conflict,
    Unavailable(Seq<char>),
}

impl View for StoreReply {
    type V = StoreReplyView;

    open spec fn view(&self) -> StoreReplyView {
        match self {
            StoreReply::Resume => StoreReplyView::Resume,
            StoreReply::Found { status, version } => StoreReplyView::Found {
                status: status_opt_view(*status),
                version: version@,
            },
            StoreReply::Missing => StoreReplyView::Missing,
            StoreReply::Written => StoreReplyView::Written,
            StoreReply::Conflict => StoreReplyView::Conflict,
            StoreReply::Unavailable(m) => StoreReplyView::Unavailable(m@),
        }
    }
}

/// Why an update did not land.
pub enum UpdateError {
    /// The record is absent and the plan does not create it.
    NotFound,
    /// Every attempt met a conflict.
    ConflictExhausted,
    /// The store failed; the text is its message.
    Unavailable(String),
    /// A reply came that the engine did not ask for.
    OutOfOrder,
}

pub enum UpdateErrorView {
    NotFound,
    ConflictExhausted,
    Unavailable(Seq<char>),
    OutOfOrder,
}

impl View for UpdateError {
    type V = UpdateErrorView;

    open spec fn view(&self) -> UpdateErrorView {
        match self {
            UpdateError::NotFound => UpdateErrorView::NotFound,
            UpdateError::ConflictExhausted => UpdateErrorView::ConflictExhausted,
            UpdateError::Unavailable(m) => UpdateErrorView::Unavailable(m@),
            UpdateError::OutOfOrder => UpdateErrorView::OutOfOrder,
        }
    }
}

/// How an update ended.
pub enum UpdateOutcome {
    /// The record now holds this state.
    Applied(VolumeStatus),
    /// The record is absent and the plan ignores that.
    Absent,
    /// The stored record cannot be parsed; nothing was written.
    Skipped,
    /// Every attempt met a conflict and the plan gives up quietly.
    GaveUp,
    Failed(UpdateError),
}

pub enum UpdateOutcomeView {
    Applied(VolumeStatusView),
    Absent,
    Skipped,
    GaveUp,
    Failed(UpdateErrorView),
}

impl View for UpdateOutcome {
    type V = UpdateOutcomeView;

    open spec fn view(&self) -> UpdateOutcomeView {
        match self {
            UpdateOutcome::Applied(s) => UpdateOutcomeView::Applied(s@),
            UpdateOutcome::Absent => UpdateOutcomeView::Absent,
            UpdateOutcome::Skipped => UpdateOutcomeView::Skipped,
            UpdateOutcome::GaveUp => UpdateOutcomeView::GaveUp,
            UpdateOutcome::Failed(e) => UpdateOutcomeView::Failed(e@),
        }
    }
}

/// What the caller is to do next.
pub enum StoreAction {
    /// Read the record.
    Get { key: String },
    /// Create the record; fails with a conflict if it exists.
    Create { key: String, label: Option<RecordLabel>, status: VolumeStatus },
    /// Replace the record if its version is still `version`.
    Replace { key: String, version: String, label: Option<RecordLabel>, status: VolumeStatus },
    /// Sleep for `backoff_jitter_ms(attempt)`, then reply `Resume`.
    Backoff { attempt: u32 },
    /// The update is over.
    Finish(UpdateOutcome),
}

pub enum StoreActionView {
    Get { key: Seq<char> },
    Create { key: Seq<char>, label: Option<RecordLabel>, status: VolumeStatusView },
    Replace { key: Seq<char>, version: Seq<char>, label: Option<RecordLabel>, status: VolumeStatusView },
    Backoff { attempt: u32 },
    Finish(UpdateOutcomeView),
}

impl View for StoreAction {
    type V = StoreActionView;

    open spec fn view(&self) -> StoreActionView {
        match self {
            StoreAction::Get { key } => StoreActionView::Get { key: key@ },
            StoreAction::Create { key, label, status } => StoreActionView::Create {
                key: key@,
                label: *label,
                status: status@,
            },
            StoreAction::Replace { key, version, label, status } => StoreActionView::Replace {
                key: key@,
                version: version@,
                label: *label,
                status: status@,
            },
            StoreAction::Backoff { attempt } => StoreActionView::Backoff { attempt: *attempt },
            StoreAction::Finish(o) => StoreActionView::Finish(o@),
        }
    }
}

/// Where the engine stands.
pub enum Phase {
    /// Not started.
    Idle,
    /// Waiting for a read.
    Reading,
    /// Waiting for a write of this state.
    Writing(VolumeStatus),
    /// Waiting for a backoff to end.
    Sleeping,
    /// Finished.
    Done,
}

pub enum PhaseView {
    Idle,
    Reading,
    Writing(VolumeStatusView),
    Sleeping,
    Done,
}

impl View for Phase {
    type V = PhaseView;

    open spec fn view(&self) -> PhaseView {
        match self {
            Phase::Idle => PhaseView::Idle,
            Phase::Reading => PhaseView::Reading,
            Phase::Writing(s) => PhaseView::Writing(s@),
            Phase::Sleeping => PhaseView::Sleeping,
            Phase::Done => PhaseView::Done,
        }
    }
}

/// Runs one [`UpdatePlan`] against the store.
pub struct UpdateEngine {
    plan: UpdatePlan,
    /// Conflicts met so far.
    attempt: u32,
    phase: Phase,
}

pub struct UpdateEngineView {
    pub plan: UpdatePlanView,
    pub attempt: u32,
    pub phase: PhaseView,
}

impl View for UpdateEngine {
    type V = UpdateEngineView;

    closed spec fn view(&self) -> UpdateEngineView {
        UpdateEngineView { plan: self.plan@, attempt: self.attempt, phase: self.phase@ }
    }
}

/// The engine finishes with outcome `o`.
pub open spec fn finish(e: UpdateEngineView, o: UpdateOutcomeView) -> (UpdateEngineView, StoreActionView) {
    (UpdateEngineView { phase: PhaseView::Done, ..e }, StoreActionView::Finish(o))
}

/// The engine finishes on a reply it did not ask for.
pub open spec fn out_of_order(e: UpdateEngineView) -> (UpdateEngineView, StoreActionView) {
    finish(e, UpdateOutcomeView::Failed(UpdateErrorView::OutOfOrder))
}

/// The outcome once every attempt met a conflict.
pub open spec fn exhausted(w: WhenExhausted) -> UpdateOutcomeView {
    match w {
        WhenExhausted::Fail => UpdateOutcomeView::Failed(UpdateErrorView::ConflictExhausted),
        WhenExhausted::GiveUp => UpdateOutcomeView::GaveUp,
    }
}

/// The label a write puts on a record holding `w`: none when the plan keeps
/// the labels read; otherwise the cleanup label once cleanup is requested,
/// since a record never goes back from cleanup to active, and the plan's
/// label before.
pub open spec fn written_label(label: Option<RecordLabel>, w: VolumeStatusView) -> Option<RecordLabel> {
    match label {
        Some(l) => if w.cleanup_requested_at is Some {
            Some(RecordLabel::Cleanup)
        } else {
            Some(l)
        },
        None => None,
    }
}

/// The engine's next state and action, given the store's reply.
pub open spec fn next(e: UpdateEngineView, r: StoreReplyView) -> (UpdateEngineView, StoreActionView) {
    let plan = e.plan;
    match e.phase {
        PhaseView::Idle | PhaseView::Sleeping => match r {
            StoreReplyView::Resume => (
                UpdateEngineView { phase: PhaseView::Reading, ..e },
                StoreActionView::Get { key: plan.key },
            ),
            _ => out_of_order(e),
        },
        PhaseView::Reading => match r {
            StoreReplyView::Found { status, version } => match status {
                Some(s) => {
                    let w = mutated(s, plan.mutation);
                    (
                        UpdateEngineView { phase: PhaseView::Writing(w), ..e },
                        StoreActionView::Replace {
                            key: plan.key,
                            version,
                            label: written_label(plan.label, w),
                            status: w,
                        },
                    )
                },
                None => finish(e, UpdateOutcomeView::Skipped),
            },
            StoreReplyView::Missing => match plan.when_missing {
                WhenMissing::Create => match plan.fresh {
                    Some(f) => {
                        let w = mutated(f, plan.mutation);
                        (
                            UpdateEngineView { phase: PhaseView::Writing(w), ..e },
                            StoreActionView::Create { key: plan.key, label: written_label(plan.label, w), status: w },
                        )
                    },
                    None => finish(e, UpdateOutcomeView::Failed(UpdateErrorView::NotFound)),
                },
                WhenMissing::Ignore => finish(e, UpdateOutcomeView::Absent),
                WhenMissing::Fail => finish(e, UpdateOutcomeView::Failed(UpdateErrorView::NotFound)),
            },
            StoreReplyView::Unavailable(m) => finish(
                e,
                UpdateOutcomeView::Failed(UpdateErrorView::Unavailable(m)),
            ),
            _ => out_of_order(e),
        },
        PhaseView::Writing(w) => match r {
            StoreReplyView::Written => finish(e, UpdateOutcomeView::Applied(w)),
            StoreReplyView::Conflict => if e.attempt + 1 < MAX_RETRIES {
                (
                    UpdateEngineView { attempt: (e.attempt + 1) as u32, phase: PhaseView::Sleeping, ..e },
                    StoreActionView::Backoff { attempt: e.attempt },
                )
            } else {
                finish(e, exhausted(plan.when_exhausted))
            },
            StoreReplyView::Missing => finish(e, UpdateOutcomeView::Failed(UpdateErrorView::NotFound)),
            StoreReplyView::Unavailable(m) => finish(
                e,
                UpdateOutcomeView::Failed(UpdateErrorView::Unavailable(m)),
            ),
            _ => out_of_order(e),
        },
        PhaseView::Done => out_of_order(e),
    }
}

impl UpdateEngine {
    /// An engine that has not started `plan`.
    pub fn new(plan: UpdatePlan) -> (r: UpdateEngine)
        ensures
            r@ == (UpdateEngineView { plan: plan@, attempt: 0, phase: PhaseView::Idle }),
    {
        UpdateEngine { plan, attempt: 0, phase: Phase::Idle }
    }

    /// Conflicts met so far.
    pub fn attempt(&self) -> (r: u32)
        ensures
            r == self@.attempt,
    {
        self.attempt
    }

    /// Whether the update is over.
    pub fn is_done(&self) -> (r: bool)
        ensures
            r == (self@.phase is Done),
    {
        match self.phase {
            Phase::Done => true,
            _ => false,
        }
    }

    fn finish(&mut self, o: UpdateOutcome) -> (r: StoreAction)
        ensures
            (final(self)@, r@) == finish(old(self)@, o@),
    {
        self.phase = Phase::Done;
        StoreAction::Finish(o)
    }

    /// Moves to writing `w`, created or replaced according to `version`.
    fn write(&mut self, w: VolumeStatus, version: Option<String>) -> (r: StoreAction)
        ensures
            final(self)@ == (UpdateEngineView { phase: PhaseView::Writing(w@), ..old(self)@ }),
            r@ == match version {
                Some(v) => StoreActionView::Replace {
                    key: old(self)@.plan.key,
                    version: v@,
                    label: written_label(old(self)@.plan.label, w@),
                    status: w@,
                },
                None => StoreActionView::Create {
                    key: old(self)@.plan.key,
                    label: written_label(old(self)@.plan.label, w@),
                    status: w@,
                },
            },
    {
        let key = self.plan.key.clone();
        let label = match self.plan.label {
            Some(l) => if w.cleanup_requested_at.is_some() {
                Some(RecordLabel::Cleanup)
            } else {
                Some(l)
            },
            None => None,
        };
        let sent = w.duplicate();
        self.phase = Phase::Writing(w);
        match version {
            Some(v) => StoreAction::Replace { key, version: v, label, status: sent },
            None => StoreAction::Create { key, label, status: sent },
        }
    }

    /// Takes the store's reply to the last action and returns the next one.
    pub fn step(&mut self, reply: StoreReply) -> (r: StoreAction)
        ensures
            (final(self)@, r@) == next(old(self)@, reply@),
    {
        match self.phase {
            Phase::Idle | Phase::Sleeping => match reply {
                StoreReply::Resume => {
                    self.phase = Phase::Reading;
                    StoreAction::Get { key: self.plan.key.clone() }
                },
                _ => self.finish(UpdateOutcome::Failed(UpdateError::OutOfOrder)),
            },
            Phase::Reading => match reply {
                StoreReply::Found { status, version } => match status {
                    Some(s) => {
                        let mut w = s;
                        self.plan.mutation.apply_to(&mut w);
                        self.write(w, Some(version))
                    },
                    None => self.finish(UpdateOutcome::Skipped),
                },
                StoreReply::Missing => match self.plan.when_missing {
                    WhenMissing::Create => {
                        let fresh = match &self.plan.fresh {
                            Some(f) => Some(f.duplicate()),
                            None => None,
                        };
                        match fresh {
                            Some(f) => {
                                let mut w = f;
                                self.plan.mutation.apply_to(&mut w);
                                self.write(w, None)
                            },
                            None => self.finish(UpdateOutcome::Failed(UpdateError::NotFound)),
                        }
                    },
                    WhenMissing::Ignore => self.finish(UpdateOutcome::Absent),
                    WhenMissing::Fail => self.finish(UpdateOutcome::Failed(UpdateError::NotFound)),
                },
                StoreReply::Unavailable(m) => self.finish(
                    UpdateOutcome::Failed(UpdateError::Unavailable(m)),
                ),
                _ => self.finish(UpdateOutcome::Failed(UpdateError::OutOfOrder)),
            },
            Phase::Writing(ref w) => match reply {
                StoreReply::Written => {
                    let done = w.duplicate();
                    self.finish(UpdateOutcome::Applied(done))
                },
                StoreReply::Conflict => {
                    if self.attempt < MAX_RETRIES - 1 {
                        let a = self.attempt;
                        self.attempt = a + 1;
                        self.phase = Phase::Sleeping;
                        StoreAction::Backoff { attempt: a }
                    } else {
                        match self.plan.when_exhausted {
                            WhenExhausted::Fail => self.finish(
                                UpdateOutcome::Failed(UpdateError::ConflictExhausted),
                            ),
                            WhenExhausted::GiveUp => self.finish(UpdateOutcome::GaveUp),
                        }
                    }
                },
                StoreReply::Missing => self.finish(UpdateOutcome::Failed(UpdateError::NotFound)),
                StoreReply::Unavailable(m) => self.finish(
                    UpdateOutcome::Failed(UpdateError::Unavailable(m)),
                ),
                _ => self.finish(UpdateOutcome::Failed(UpdateError::OutOfOrder)),
            },
            Phase::Done => self.finish(UpdateOutcome::Failed(UpdateError::OutOfOrder)),
        }
    }
}

} // verus!
