use node_local_cache::engine::{StoreAction, StoreReply, UpdateEngine, UpdateOutcome, UpdatePlan};
use node_local_cache::identity::{volume_capabilities_supported, AccessType, IdentityService, PluginCapability};
use node_local_cache::reconciler::{decommission_candidates, prune_decision, prune_decision_at, PruneReason};
use node_local_cache::status::VolumeStatus;

fn names(v: &[&str]) -> Vec<String> {
    v.iter().map(|s| s.to_string()).collect()
}

/// Runs `plan` against a record that is read as `status` and written once.
fn apply_once(plan: UpdatePlan, status: &VolumeStatus) -> VolumeStatus {
    let mut e = UpdateEngine::new(plan);
    e.step(StoreReply::Resume);
    e.step(StoreReply::Found { status: Some(status.duplicate()), version: "1".to_string() });
    match e.step(StoreReply::Written) {
        StoreAction::Finish(UpdateOutcome::Applied(s)) => s,
        _ => panic!("update did not land"),
    }
}

#[test]
fn departed_node_is_decommissioned_and_record_becomes_prunable() {
    let mut s = VolumeStatus::created("v3", "t0");
    s.add_node("n3");
    s.mark_cleanup_requested_at("2024-01-01T00:00:00+00:00");
    let members = names(&["n1", "n2"]);
    let candidates = decommission_candidates(&s, &members);
    assert_eq!(candidates, names(&["n3"]));
    assert_eq!(prune_decision_at(&s, 0, None), None);
    let after = apply_once(UpdatePlan::mark_decommissioned_nodes("nlc-vol-v3", &candidates), &s);
    assert_eq!(after.nodes_decommissioned, names(&["n3"]));
    assert!(after.is_cleanup_complete());
    assert_eq!(prune_decision_at(&after, 0, None), Some(PruneReason::Complete));
}

#[test]
fn members_and_reported_nodes_are_not_candidates() {
    let mut s = VolumeStatus::created("v", "t0");
    for n in ["a", "b", "c", "d"] {
        s.add_node(n);
    }
    s.mark_node_completed("a");
    s.mark_node_failed("b");
    let candidates = decommission_candidates(&s, &names(&["c"]));
    assert_eq!(candidates, names(&["d"]));
    let none = decommission_candidates(&s, &names(&["c", "d"]));
    assert!(none.is_empty());
}

#[test]
fn ttl_expiry_forces_pruning() {
    let mut s = VolumeStatus::created("v", "t0");
    s.add_node("slow");
    // 2024-01-01T00:00:00Z is 1704067200 seconds after the epoch.
    s.mark_cleanup_requested_at("2024-01-01T00:00:00+00:00");
    let requested = 1_704_067_200i64;
    assert_eq!(prune_decision_at(&s, requested + 100, Some(50)), Some(PruneReason::Expired));
    assert_eq!(prune_decision_at(&s, requested + 100, Some(100)), Some(PruneReason::Expired));
    assert_eq!(prune_decision_at(&s, requested + 100, Some(101)), None);
    assert_eq!(prune_decision_at(&s, requested + 100, None), None);
    // Offsets are honoured: one hour east is one hour earlier.
    s.cleanup_requested_at = Some("2024-01-01T01:00:00+01:00".to_string());
    assert_eq!(prune_decision_at(&s, requested + 10, Some(10)), Some(PruneReason::Expired));
    assert_eq!(prune_decision_at(&s, requested + 9, Some(10)), None);
    // An unreadable time never expires.
    s.cleanup_requested_at = Some("yesterday".to_string());
    assert_eq!(prune_decision_at(&s, i64::MAX, Some(0)), None);
    // Long past requests expire now.
    s.cleanup_requested_at = Some("2000-01-01T00:00:00Z".to_string());
    assert_eq!(prune_decision(&s, Some(60)), Some(PruneReason::Expired));
    assert_eq!(prune_decision(&s, None), None);
}

#[test]
fn no_pruning_without_cleanup_request() {
    let mut s = VolumeStatus::created("v", "t0");
    s.add_node("a");
    s.mark_node_completed("a");
    assert_eq!(prune_decision_at(&s, i64::MAX, Some(0)), None);
}

#[test]
fn identity_advertises_controller_only_in_controller_mode() {
    assert_eq!(IdentityService::new(true).plugin_capabilities(), vec![PluginCapability::ControllerService]);
    assert!(IdentityService::new(false).plugin_capabilities().is_empty());
}

#[test]
fn block_volumes_are_not_supported() {
    assert!(volume_capabilities_supported(&vec![]));
    assert!(volume_capabilities_supported(&vec![Some(AccessType::Mount), None]));
    assert!(!volume_capabilities_supported(&vec![Some(AccessType::Mount), Some(AccessType::Block)]));
}
