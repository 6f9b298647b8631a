//! The per-volume cleanup record and its transitions.

use vstd::prelude::*;

verus! {

/// Label key under which volume records are discovered.
pub const VOLUME_LABEL: &'static str = "node-local-cache.csi.io/volume";

/// Prefix of a volume record's key.
pub const VOLUME_CM_PREFIX: &'static str = "nlc-vol-";

/// A node list seen as a sequence of names.
pub open spec fn names_of(v: &Vec<String>) -> Seq<Seq<char>> {
    v.deep_view()
}

/// A de-duplicated list after inserting `n`: unchanged when `n` is present,
/// otherwise `n` appended at the end.
pub open spec fn with_name(s: Seq<Seq<char>>, n: Seq<char>) -> Seq<Seq<char>> {
    if s.contains(n) {
        s
    } else {
        s.push(n)
    }
}

/// Inserting `n` keeps every name already present, adds `n` and nothing
/// else.
pub proof fn lemma_with_name_keeps(s: Seq<Seq<char>>, n: Seq<char>)
    ensures
        with_name(s, n).contains(n),
        forall|m: Seq<char>| #[trigger] s.contains(m) ==> with_name(s, n).contains(m),
        forall|m: Seq<char>| #[trigger] with_name(s, n).contains(m) ==> m == n || s.contains(m),
        s.no_duplicates() ==> with_name(s, n).no_duplicates(),
{
    if !s.contains(n) {
        assert(s.push(n)[s.len() as int] == n);
        assert forall|m: Seq<char>| #[trigger] s.contains(m) implies with_name(s, n).contains(m) by {
            let k = choose|k: int| 0 <= k < s.len() && s[k] == m;
            assert(s.push(n)[k] == m);
        }
        assert forall|m: Seq<char>| #[trigger] with_name(s, n).contains(m) implies m == n || s.contains(m) by {
            let k = choose|k: int| 0 <= k < s.len() + 1 && s.push(n)[k] == m;
            if k < s.len() {
                assert(s[k] == m);
            }
        }
    }
}

/// The cleanup lifecycle of one volume.
#[derive(Debug)]
pub struct VolumeStatus {
    pub volume_id: String,
    pub created_at: String,
    pub cleanup_requested_at: Option<String>,
    pub nodes_with_volume: Vec<String>,
    pub nodes_completed: Vec<String>,
    pub nodes_failed: Vec<String>,
    /// Nodes that left the cluster before they could report.
    pub nodes_decommissioned: Vec<String>,
}

/// The mathematical value of a [`VolumeStatus`].
pub struct VolumeStatusView {
    pub volume_id: Seq<char>,
    pub created_at: Seq<char>,
    pub cleanup_requested_at: Option<Seq<char>>,
    pub nodes_with_volume: Seq<Seq<char>>,
    pub nodes_completed: Seq<Seq<char>>,
    pub nodes_failed: Seq<Seq<char>>,
    pub nodes_decommissioned: Seq<Seq<char>>,
}

impl View for VolumeStatus {
    type V = VolumeStatusView;

    open spec fn view(&self) -> VolumeStatusView {
        VolumeStatusView {
            volume_id: self.volume_id@,
            created_at: self.created_at@,
            cleanup_requested_at: self.cleanup_requested_at.deep_view(),
            nodes_with_volume: names_of(&self.nodes_with_volume),
            nodes_completed: names_of(&self.nodes_completed),
            nodes_failed: names_of(&self.nodes_failed),
            nodes_decommissioned: names_of(&self.nodes_decommissioned),
        }
    }
}

impl VolumeStatusView {
    /// A fresh record: no cleanup requested, no node in any list.
    pub open spec fn fresh(volume_id: Seq<char>, created_at: Seq<char>) -> VolumeStatusView {
        VolumeStatusView {
            volume_id,
            created_at,
            cleanup_requested_at: None,
            nodes_with_volume: Seq::empty(),
            nodes_completed: Seq::empty(),
            nodes_failed: Seq::empty(),
            nodes_decommissioned: Seq::empty(),
        }
    }

    /// Every node list is free of duplicates, and no node stands in two of
    /// the reported lists (completed, failed, decommissioned).
    pub open spec fn wf(self) -> bool {
        &&& self.nodes_with_volume.no_duplicates()
        &&& self.nodes_completed.no_duplicates()
        &&& self.nodes_failed.no_duplicates()
        &&& self.nodes_decommissioned.no_duplicates()
        &&& forall|n: Seq<char>| #[trigger] self.nodes_completed.contains(n) ==> !self.nodes_failed.contains(n)
        &&& forall|n: Seq<char>| #[trigger] self.nodes_completed.contains(n) ==> !self.nodes_decommissioned.contains(n)
        &&& forall|n: Seq<char>| #[trigger] self.nodes_failed.contains(n) ==> !self.nodes_decommissioned.contains(n)
    }

    /// `n` has reported completion or failure, or was found decommissioned.
    pub open spec fn reported(self, n: Seq<char>) -> bool {
        ||| self.nodes_completed.contains(n)
        ||| self.nodes_failed.contains(n)
        ||| self.nodes_decommissioned.contains(n)
    }

    /// Cleanup was requested and every node that held the volume has reported.
    pub open spec fn is_complete(self) -> bool {
        &&& self.cleanup_requested_at is Some
        &&& forall|n: Seq<char>| #[trigger] self.nodes_with_volume.contains(n) ==> self.reported(n)
    }

    /// The test that keeps a node among the pending ones.
    pub open spec fn unreported(self) -> spec_fn(Seq<char>) -> bool {
        |n: Seq<char>| !self.reported(n)
    }

    /// The nodes that held the volume and have not reported, in list order.
    pub open spec fn pending(self) -> Seq<Seq<char>> {
        self.nodes_with_volume.filter(self.unreported())
    }

    /// Registers `n`; once cleanup is requested the nodes no longer grow.
    pub open spec fn with_node(self, n: Seq<char>) -> VolumeStatusView {
        if self.cleanup_requested_at is Some {
            self
        } else {
            VolumeStatusView { nodes_with_volume: with_name(self.nodes_with_volume, n), ..self }
        }
    }

    /// Marks `n` completed, unless it has already reported in any way: a
    /// report is terminal.
    pub open spec fn with_completed(self, n: Seq<char>) -> VolumeStatusView {
        if self.reported(n) {
            self
        } else {
            VolumeStatusView { nodes_completed: with_name(self.nodes_completed, n), ..self }
        }
    }

    /// Marks `n` failed, unless it has already reported in any way.
    pub open spec fn with_failed(self, n: Seq<char>) -> VolumeStatusView {
        if self.reported(n) {
            self
        } else {
            VolumeStatusView { nodes_failed: with_name(self.nodes_failed, n), ..self }
        }
    }

    /// Marks `n` decommissioned, unless it has already reported in any way.
    pub open spec fn with_decommissioned(self, n: Seq<char>) -> VolumeStatusView {
        if self.reported(n) {
            self
        } else {
            VolumeStatusView { nodes_decommissioned: with_name(self.nodes_decommissioned, n), ..self }
        }
    }

    /// Requests cleanup at time `at`; the first request wins.
    pub open spec fn with_cleanup_requested(self, at: Seq<char>) -> VolumeStatusView {
        if self.cleanup_requested_at is Some {
            self
        } else {
            VolumeStatusView { cleanup_requested_at: Some(at), ..self }
        }
    }
}

/// Whether `names` holds `name`.
pub fn contains_name(names: &Vec<String>, name: &str) -> (r: bool)
    ensures
        r == names_of(names).contains(name@),
{
    let wanted = name.to_owned();
    let mut i: usize = 0;
    while i < names.len()
        invariant
            i <= names.len(),
            wanted@ == name@,
            forall|j: int| 0 <= j < i ==> names[j]@ != name@,
        decreases names.len() - i,
    {
        if names[i] == wanted {
            assert(names_of(names)[i as int] == name@);
            return true;
        }
        i += 1;
    }
    assert(!names_of(names).contains(name@)) by {
        if names_of(names).contains(name@) {
            let k = choose|k: int| 0 <= k < names_of(names).len() && names_of(names)[k] == name@;
            assert(names[k]@ == name@);
        }
    }
    false
}

/// A copy of a node list.
pub fn copy_names(names: &Vec<String>) -> (r: Vec<String>)
    ensures
        names_of(&r) == names_of(names),
{
    let mut r: Vec<String> = Vec::new();
    let mut i: usize = 0;
    while i < names.len()
        invariant
            i <= names.len(),
            names_of(&r) == names_of(names).take(i as int),
        decreases names.len() - i,
    {
        let c = names[i].clone();
        let ghost before = names_of(&r);
        r.push(c);
        assert(names_of(&r) =~= before.push(c@));
        assert(names_of(&r) =~= names_of(names).take(i + 1));
        i += 1;
    }
    assert(names_of(names).take(i as int) =~= names_of(names));
    r
}

/// Appends `name` to `names` unless it is already there.
fn insert_name(names: &mut Vec<String>, name: &str)
    ensures
        names_of(final(names)) == with_name(names_of(old(names)), name@),
{
    if !contains_name(names, name) {
        names.push(name.to_owned());
        assert(names_of(names) =~= names_of(old(names)).push(name@));
    }
}

/// Relies on chrono's `Utc::now` and `DateTime::to_rfc3339`: the current
/// time as text. Nothing is stated of it, since it depends on the clock.
#[verifier::external_body]
pub(crate) fn now_rfc3339() -> (r: String) {
    chrono::Utc::now().to_rfc3339()
}

/// The key of the record that tracks `volume_id`.
pub fn configmap_name(volume_id: &str) -> (r: String)
    ensures
        r@ == VOLUME_CM_PREFIX@ + volume_id@,
{
    let prefix = String::from_str(VOLUME_CM_PREFIX);
    prefix.concat(volume_id)
}

impl VolumeStatus {
    /// A fresh record for `volume_id`, stamped with the given creation time.
    pub fn created(volume_id: &str, created_at: &str) -> (r: VolumeStatus)
        ensures
            r@ == VolumeStatusView::fresh(volume_id@, created_at@),
            r@.wf(),
    {
        let r = VolumeStatus {
            volume_id: volume_id.to_owned(),
            created_at: created_at.to_owned(),
            cleanup_requested_at: None,
            nodes_with_volume: Vec::new(),
            nodes_completed: Vec::new(),
            nodes_failed: Vec::new(),
            nodes_decommissioned: Vec::new(),
        };
        assert(names_of(&r.nodes_with_volume) =~= Seq::empty());
        assert(names_of(&r.nodes_completed) =~= Seq::empty());
        assert(names_of(&r.nodes_failed) =~= Seq::empty());
        assert(names_of(&r.nodes_decommissioned) =~= Seq::empty());
        r
    }

    /// A fresh record for `volume_id`, created now.
    pub fn new(volume_id: &str) -> (r: VolumeStatus)
        ensures
            r@ == VolumeStatusView::fresh(volume_id@, r.created_at@),
            r@.wf(),
    {
        let now = now_rfc3339();
        VolumeStatus::created(volume_id, now.as_str())
    }

    /// A copy of this record.
    pub fn duplicate(&self) -> (r: VolumeStatus)
        ensures
            r@ == self@,
    {
        let cleanup_requested_at = match &self.cleanup_requested_at {
            Some(at) => Some(at.clone()),
            None => None,
        };
        VolumeStatus {
            volume_id: self.volume_id.clone(),
            created_at: self.created_at.clone(),
            cleanup_requested_at,
            nodes_with_volume: copy_names(&self.nodes_with_volume),
            nodes_completed: copy_names(&self.nodes_completed),
            nodes_failed: copy_names(&self.nodes_failed),
            nodes_decommissioned: copy_names(&self.nodes_decommissioned),
        }
    }

    /// Records that `node_name` holds the volume; once cleanup is requested
    /// this changes nothing.
    pub fn add_node(&mut self, node_name: &str)
        ensures
            final(self)@ == old(self)@.with_node(node_name@),
    {
        if self.cleanup_requested_at.is_none() {
            insert_name(&mut self.nodes_with_volume, node_name);
        }
    }

    /// Requests cleanup at time `at`, unless it was already requested.
    pub fn mark_cleanup_requested_at(&mut self, at: &str)
        ensures
            final(self)@ == old(self)@.with_cleanup_requested(at@),
    {
        if self.cleanup_requested_at.is_none() {
            self.cleanup_requested_at = Some(at.to_owned());
        }
    }

    /// Requests cleanup now, unless it was already requested.
    pub fn mark_cleanup_requested(&mut self)
        ensures
            old(self)@.cleanup_requested_at is Some ==> final(self)@ == old(self)@,
            old(self)@.cleanup_requested_at is None ==> final(self)@ == old(self)@.with_cleanup_requested(
                final(self)@.cleanup_requested_at.unwrap(),
            ),
            final(self)@.cleanup_requested_at is Some,
    {
        let now = now_rfc3339();
        self.mark_cleanup_requested_at(now.as_str());
    }

    /// Records that `node_name` deleted its local copy, unless it has
    /// already reported.
    pub fn mark_node_completed(&mut self, node_name: &str)
        ensures
            final(self)@ == old(self)@.with_completed(node_name@),
    {
        if !self.has_reported(node_name) {
            insert_name(&mut self.nodes_completed, node_name);
        }
    }

    /// Records that `node_name` failed to delete its local copy, unless it
    /// has already reported.
    pub fn mark_node_failed(&mut self, node_name: &str)
        ensures
            final(self)@ == old(self)@.with_failed(node_name@),
    {
        if !self.has_reported(node_name) {
            insert_name(&mut self.nodes_failed, node_name);
        }
    }

    /// Records that `node_name` left the cluster before it reported; a node
    /// that has reported stays as it is.
    pub fn mark_node_decommissioned(&mut self, node_name: &str)
        ensures
            final(self)@ == old(self)@.with_decommissioned(node_name@),
    {
        if !self.has_reported(node_name) {
            insert_name(&mut self.nodes_decommissioned, node_name);
        }
    }

    /// Whether `node_name` has reported or was found decommissioned.
    pub fn has_reported(&self, node_name: &str) -> (r: bool)
        ensures
            r == self@.reported(node_name@),
    {
        contains_name(&self.nodes_completed, node_name) || contains_name(&self.nodes_failed, node_name)
            || contains_name(&self.nodes_decommissioned, node_name)
    }

    /// Whether cleanup was requested and every node that held the volume has
    /// reported or is gone.
    pub fn is_cleanup_complete(&self) -> (r: bool)
        ensures
            r == self@.is_complete(),
    {
        if self.cleanup_requested_at.is_none() {
            return false;
        }
        let mut i: usize = 0;
        while i < self.nodes_with_volume.len()
            invariant
                i <= self.nodes_with_volume.len(),
                forall|j: int| 0 <= j < i ==> self@.reported(#[trigger] self@.nodes_with_volume[j]),
            decreases self.nodes_with_volume.len() - i,
        {
            if !self.has_reported(self.nodes_with_volume[i].as_str()) {
                assert(self@.nodes_with_volume.contains(self@.nodes_with_volume[i as int]));
                return false;
            }
            i += 1;
        }
        assert forall|n: Seq<char>| #[trigger] self@.nodes_with_volume.contains(n) implies self@.reported(n) by {
            let k = choose|k: int| 0 <= k < self@.nodes_with_volume.len() && self@.nodes_with_volume[k] == n;
        }
        true
    }

    /// The nodes that hold the volume and have not reported, in list order.
    pub fn pending_nodes(&self) -> (r: Vec<&String>)
        ensures
            r.deep_view() == self@.pending(),
    {
        let mut r: Vec<&String> = Vec::new();
        let mut i: usize = 0;
        while i < self.nodes_with_volume.len()
            invariant
                i <= self.nodes_with_volume.len(),
                r.deep_view() == self@.nodes_with_volume.take(i as int).filter(self@.unreported()),
            decreases self.nodes_with_volume.len() - i,
        {
            let name = &self.nodes_with_volume[i];
            let done = self.has_reported(name.as_str());
            let ghost before = r.deep_view();
            proof {
                let s = self@.nodes_with_volume;
                reveal(Seq::filter);
                assert(s.take(i + 1).drop_last() =~= s.take(i as int));
                assert(s.take(i + 1).last() == s[i as int]);
                assert(name@ == s[i as int]);
                assert(self@.unreported()(s[i as int]) == !done);
            }
            if !done {
                r.push(name);
                assert(r.deep_view() =~= before.push(name@));
            }
            assert(r.deep_view() == self@.nodes_with_volume.take(i + 1).filter(self@.unreported()));
            i += 1;
        }
        assert(self@.nodes_with_volume.take(i as int) =~= self@.nodes_with_volume);
        r
    }
}

} // verus!
