//! Decisions of the per-node cleanup worker.
//!
//! On each tick the worker lists the records labelled for cleanup, picks the
//! ones that this node must act on, deletes each volume's local directory
//! and reports the result through the update engine.

use vstd::prelude::*;

use crate::engine::status_opt_view;
use crate::status::{contains_name, VolumeStatus, VolumeStatusView};
use crate::volume::{has_prefix, join_path, joined_path};

verus! {

/// A record as listed: its key and its state, `None` when it cannot be
/// parsed.
pub struct ListedRecord {
    pub key: String,
    pub status: Option<VolumeStatus>,
}

pub struct ListedRecordView {
    pub key: Seq<char>,
    pub status: Option<VolumeStatusView>,
}

impl View for ListedRecord {
    type V = ListedRecordView;

    open spec fn view(&self) -> ListedRecordView {
        ListedRecordView { key: self.key@, status: status_opt_view(self.status) }
    }
}

pub open spec fn records_view(records: &Vec<ListedRecord>) -> Seq<ListedRecordView> {
    records@.map_values(|r: ListedRecord| r@)
}

/// One local deletion that the worker is to carry out.
pub struct CleanupTask {
    /// The key of the record to report on.
    pub key: String,
    pub volume_id: String,
    /// The directory to delete; `None` when the volume identifier would
    /// lead outside the base directory, which counts as a failure.
    pub target: Option<String>,
}

pub struct CleanupTaskView {
    pub key: Seq<char>,
    pub volume_id: Seq<char>,
    pub target: Option<Seq<char>>,
}

impl View for CleanupTask {
    type V = CleanupTaskView;

    open spec fn view(&self) -> CleanupTaskView {
        CleanupTaskView { key: self.key@, volume_id: self.volume_id@, target: self.target.deep_view() }
    }
}

pub open spec fn tasks_view(tasks: &Vec<CleanupTask>) -> Seq<CleanupTaskView> {
    tasks@.map_values(|t: CleanupTask| t@)
}

/// `node` held the volume and has reported neither completion nor failure.
pub open spec fn must_clean(v: VolumeStatusView, node: Seq<char>) -> bool {
    &&& v.nodes_with_volume.contains(node)
    &&& !v.nodes_completed.contains(node)
    &&& !v.nodes_failed.contains(node)
}

/// A single path component that names an entry inside its directory: not
/// empty, without a separator, neither `.` nor `..`.
pub open spec fn is_plain_component(s: Seq<char>) -> bool {
    &&& s.len() > 0
    &&& !s.contains('/')
    &&& s != seq!['.']
    &&& s != seq!['.', '.']
}

/// The directory to delete for `volume_id` under `base`, when it lies
/// inside `base`.
pub open spec fn cleanup_target_of(base: Seq<char>, volume_id: Seq<char>) -> Option<Seq<char>> {
    if base.len() > 0 && is_plain_component(volume_id) {
        Some(joined_path(base, volume_id))
    } else {
        None
    }
}

/// The worker acts on a listed record that parses and that `node` must
/// clean.
pub open spec fn wanted(r: ListedRecordView, node: Seq<char>) -> bool {
    r.status matches Some(s) && must_clean(s, node)
}

pub open spec fn task_of(r: ListedRecordView, base: Seq<char>) -> CleanupTaskView {
    CleanupTaskView {
        key: r.key,
        volume_id: r.status.unwrap().volume_id,
        target: cleanup_target_of(base, r.status.unwrap().volume_id),
    }
}

/// The tasks of `node` for the listed records, in list order.
pub open spec fn node_tasks(records: Seq<ListedRecordView>, node: Seq<char>, base: Seq<char>) -> Seq<
    CleanupTaskView,
> {
    records.filter(|r: ListedRecordView| wanted(r, node)).map_values(|r: ListedRecordView| task_of(r, base))
}

/// Whether `node_name` must delete its copy of the volume.
pub fn needs_cleanup(status: &VolumeStatus, node_name: &str) -> (r: bool)
    ensures
        r == must_clean(status@, node_name@),
{
    contains_name(&status.nodes_with_volume, node_name) && !contains_name(&status.nodes_completed, node_name)
        && !contains_name(&status.nodes_failed, node_name)
}

/// Whether `s` is a single plain path component.
pub fn is_single_component(s: &str) -> (r: bool)
    ensures
        r == is_plain_component(s@),
{
    let n = s.unicode_len();
    if n == 0 {
        return false;
    }
    let mut i: usize = 0;
    while i < n
        invariant
            n == s@.len(),
            i <= n,
            forall|j: int| 0 <= j < i ==> s@[j] != '/',
        decreases n - i,
    {
        if s.get_char(i) == '/' {
            assert(s@.contains('/'));
            return false;
        }
        i += 1;
    }
    if n == 1 && s.get_char(0) == '.' {
        assert(s@ =~= seq!['.']);
        return false;
    }
    if n == 2 && s.get_char(0) == '.' && s.get_char(1) == '.' {
        assert(s@ =~= seq!['.', '.']);
        return false;
    }
    assert(s@ != seq!['.']) by {
        if n == 1 {
            assert(s@[0] != seq!['.'][0]);
        }
    }
    assert(s@ != seq!['.', '.']) by {
        if n == 2 {
            assert(s@[0] != '.' || s@[1] != '.');
        }
    }
    true
}

/// The directory to delete for `volume_id` under `base`, or `None` when it
/// would not lie inside `base`.
pub fn cleanup_target(base: &str, volume_id: &str) -> (r: Option<String>)
    ensures
        r.deep_view() == cleanup_target_of(base@, volume_id@),
{
    if base.unicode_len() > 0 && is_single_component(volume_id) {
        Some(join_path(base, volume_id))
    } else {
        None
    }
}

/// The cleanup tasks of `node_name` among the listed records: the records
/// that parse and that the node must clean, in list order.
pub fn node_cleanup_tasks(records: &Vec<ListedRecord>, node_name: &str, base: &str) -> (r: Vec<CleanupTask>)
    ensures
        tasks_view(&r) == node_tasks(records_view(records), node_name@, base@),
{
    let ghost recs = records_view(records);
    let ghost pred = |r: ListedRecordView| wanted(r, node_name@);
    let ghost f = |r: ListedRecordView| task_of(r, base@);
    let mut out: Vec<CleanupTask> = Vec::new();
    let mut i: usize = 0;
    while i < records.len()
        invariant
            i <= records.len(),
            recs == records_view(records),
            pred == (|r: ListedRecordView| wanted(r, node_name@)),
            f == (|r: ListedRecordView| task_of(r, base@)),
            tasks_view(&out) == recs.take(i as int).filter(pred).map_values(f),
        decreases records.len() - i,
    {
        let rec = &records[i];
        proof {
            reveal(Seq::filter);
            assert(recs.take(i + 1).drop_last() =~= recs.take(i as int));
            assert(recs.take(i + 1).last() == rec@);
        }
        let ghost before = recs.take(i as int).filter(pred);
        match &rec.status {
            Some(s) => {
                if needs_cleanup(s, node_name) {
                    let task = CleanupTask {
                        key: rec.key.clone(),
                        volume_id: s.volume_id.clone(),
                        target: cleanup_target(base, s.volume_id.as_str()),
                    };
                    let ghost old_out = tasks_view(&out);
                    out.push(task);
                    assert(tasks_view(&out) =~= old_out.push(task@));
                    assert(before.push(rec@).map_values(f) =~= before.map_values(f).push(f(rec@)));
                }
            },
            None => {},
        }
        i += 1;
    }
    assert(recs.take(i as int) =~= recs);
    out
}

/// What became of a local deletion.
pub enum LocalDeletion {
    /// There was nothing to delete.
    AlreadyAbsent,
    /// The directory was deleted.
    Removed,
    /// The directory would lie outside the base directory.
    Refused,
    /// The deletion failed; the text is the error.
    Failed(String),
}

/// Nothing to delete and deleted count the same, as success.
pub fn deletion_succeeded(d: &LocalDeletion) -> (r: bool)
    ensures
        r == (d is AlreadyAbsent || d is Removed),
{
    match d {
        LocalDeletion::AlreadyAbsent | LocalDeletion::Removed => true,
        LocalDeletion::Refused | LocalDeletion::Failed(_) => false,
    }
}

/// A deletion target lies strictly inside the base directory: it begins
/// with the base, and what follows is one plain component, after a
/// separator unless the base ends in one.
pub proof fn lemma_target_inside_base(base: Seq<char>, volume_id: Seq<char>)
    requires
        cleanup_target_of(base, volume_id) is Some,
    ensures
        has_prefix(cleanup_target_of(base, volume_id).unwrap(), base),
        cleanup_target_of(base, volume_id).unwrap().len() > base.len(),
        base.last() == '/' ==> cleanup_target_of(base, volume_id).unwrap() == base + volume_id,
        base.last() != '/' ==> cleanup_target_of(base, volume_id).unwrap() == base + seq!['/'] + volume_id,
{
    let t = cleanup_target_of(base, volume_id).unwrap();
    assert(volume_id[0] != '/') by {
        if volume_id[0] == '/' {
            assert(volume_id.contains('/'));
        }
    }
    assert(t.take(base.len() as int) =~= base);
}

} // verus!
