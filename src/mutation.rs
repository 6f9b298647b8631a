//! The changes that writers make to a volume record.

use vstd::prelude::*;

use crate::status::{copy_names, names_of, VolumeStatus, VolumeStatusView};

verus! {

/// One change to a volume record. Each is idempotent: applying it twice
/// leaves the record as applying it once.
pub enum Mutation {
    /// A node started to use the volume.
    AddNode(String),
    /// The volume was deleted; the text is the time of the request.
    RequestCleanup(String),
    /// A node deleted its local copy.
    MarkCompleted(String),
    /// A node failed to delete its local copy.
    MarkFailed(String),
    /// These nodes left the cluster before they reported.
    MarkDecommissioned(Vec<String>),
}

pub enum MutationView {
    AddNode(Seq<char>),
    RequestCleanup(Seq<char>),
    MarkCompleted(Seq<char>),
    MarkFailed(Seq<char>),
    MarkDecommissioned(Seq<Seq<char>>),
}

impl View for Mutation {
    type V = MutationView;

    open spec fn view(&self) -> MutationView {
        match self {
            Mutation::AddNode(n) => MutationView::AddNode(n@),
            Mutation::RequestCleanup(at) => MutationView::RequestCleanup(at@),
            Mutation::MarkCompleted(n) => MutationView::MarkCompleted(n@),
            Mutation::MarkFailed(n) => MutationView::MarkFailed(n@),
            Mutation::MarkDecommissioned(ns) => MutationView::MarkDecommissioned(names_of(ns)),
        }
    }
}

/// `v` with each of `names` marked decommissioned, in order.
pub open spec fn with_all_decommissioned(v: VolumeStatusView, names: Seq<Seq<char>>) -> VolumeStatusView
    decreases names.len(),
{
    if names.len() == 0 {
        v
    } else {
        with_all_decommissioned(v, names.drop_last()).with_decommissioned(names.last())
    }
}

/// The record that results from applying `m` to `v`.
pub open spec fn mutated(v: VolumeStatusView, m: MutationView) -> VolumeStatusView {
    match m {
        MutationView::AddNode(n) => v.with_node(n),
        MutationView::RequestCleanup(at) => v.with_cleanup_requested(at),
        MutationView::MarkCompleted(n) => v.with_completed(n),
        MutationView::MarkFailed(n) => v.with_failed(n),
        MutationView::MarkDecommissioned(ns) => with_all_decommissioned(v, ns),
    }
}

impl Mutation {
    /// A node's report on its local deletion: completed or failed.
    pub fn node_report(node_name: &str, success: bool) -> (r: Mutation)
        ensures
            success ==> r@ == MutationView::MarkCompleted(node_name@),
            !success ==> r@ == MutationView::MarkFailed(node_name@),
    {
        if success {
            Mutation::MarkCompleted(node_name.to_owned())
        } else {
            Mutation::MarkFailed(node_name.to_owned())
        }
    }

    /// A copy of this mutation.
    pub fn duplicate(&self) -> (r: Mutation)
        ensures
            r@ == self@,
    {
        match self {
            Mutation::AddNode(n) => Mutation::AddNode(n.clone()),
            Mutation::RequestCleanup(at) => Mutation::RequestCleanup(at.clone()),
            Mutation::MarkCompleted(n) => Mutation::MarkCompleted(n.clone()),
            Mutation::MarkFailed(n) => Mutation::MarkFailed(n.clone()),
            Mutation::MarkDecommissioned(ns) => Mutation::MarkDecommissioned(copy_names(ns)),
        }
    }

    /// Applies this mutation to `status`.
    pub fn apply_to(&self, status: &mut VolumeStatus)
        ensures
            final(status)@ == mutated(old(status)@, self@),
    {
        match self {
            Mutation::AddNode(n) => status.add_node(n.as_str()),
            Mutation::RequestCleanup(at) => status.mark_cleanup_requested_at(at.as_str()),
            Mutation::MarkCompleted(n) => status.mark_node_completed(n.as_str()),
            Mutation::MarkFailed(n) => status.mark_node_failed(n.as_str()),
            Mutation::MarkDecommissioned(ns) => {
                let ghost start = status@;
                let mut i: usize = 0;
                while i < ns.len()
                    invariant
                        i <= ns.len(),
                        status@ == with_all_decommissioned(start, names_of(ns).take(i as int)),
                    decreases ns.len() - i,
                {
                    status.mark_node_decommissioned(ns[i].as_str());
                    assert(names_of(ns).take(i + 1).drop_last() =~= names_of(ns).take(i as int));
                    i += 1;
                }
                assert(names_of(ns).take(i as int) =~= names_of(ns));
            },
        }
    }
}

} // verus!
