use node_local_cache::status::{configmap_name, VolumeStatus};

fn names(v: &[&str]) -> Vec<String> {
    v.iter().map(|s| s.to_string()).collect()
}

#[test]
fn test_cleanup_complete() {
    let mut status = VolumeStatus::new("nlc-test-123");
    status.add_node("node1");
    status.add_node("node2");

    // Not complete without cleanup request
    assert!(!status.is_cleanup_complete());

    status.mark_cleanup_requested();

    // Not complete without all nodes reporting
    assert!(!status.is_cleanup_complete());

    status.mark_node_completed("node1");
    assert!(!status.is_cleanup_complete());

    status.mark_node_completed("node2");
    assert!(status.is_cleanup_complete());
}

#[test]
fn test_cleanup_complete_with_failures() {
    let mut status = VolumeStatus::new("nlc-test-123");
    status.add_node("node1");
    status.add_node("node2");
    status.mark_cleanup_requested();

    status.mark_node_completed("node1");
    status.mark_node_failed("node2"); // Failed but still "reported"

    assert!(status.is_cleanup_complete());
}

#[test]
fn test_idempotent_operations() {
    let mut status = VolumeStatus::new("nlc-test-123");

    status.add_node("node1");
    status.add_node("node1");
    status.add_node("node1");
    assert_eq!(status.nodes_with_volume.len(), 1);

    status.mark_node_completed("node1");
    status.mark_node_completed("node1");
    assert_eq!(status.nodes_completed.len(), 1);
}

#[test]
fn repeated_failed_and_decommissioned_marks_keep_one_entry() {
    let mut status = VolumeStatus::created("v", "t0");
    for _ in 0..4 {
        status.mark_node_failed("n1");
        status.mark_node_decommissioned("n2");
    }
    assert_eq!(status.nodes_failed, names(&["n1"]));
    assert_eq!(status.nodes_decommissioned, names(&["n2"]));
}

#[test]
fn add_node_keeps_insertion_order() {
    let mut status = VolumeStatus::created("v", "t0");
    status.add_node("b");
    status.add_node("a");
    status.add_node("b");
    status.add_node("c");
    assert_eq!(status.nodes_with_volume, names(&["b", "a", "c"]));
}

#[test]
fn created_record_is_empty() {
    let status = VolumeStatus::created("vol-7", "2024-01-01T00:00:00+00:00");
    assert_eq!(status.volume_id, "vol-7");
    assert_eq!(status.created_at, "2024-01-01T00:00:00+00:00");
    assert!(status.cleanup_requested_at.is_none());
    assert!(status.nodes_with_volume.is_empty());
    assert!(status.nodes_completed.is_empty());
    assert!(status.nodes_failed.is_empty());
    assert!(status.nodes_decommissioned.is_empty());
}

#[test]
fn new_record_carries_a_creation_time() {
    let status = VolumeStatus::new("vol-8");
    assert_eq!(status.volume_id, "vol-8");
    assert!(!status.created_at.is_empty());
}

#[test]
fn first_cleanup_request_wins() {
    let mut status = VolumeStatus::created("v", "t0");
    status.mark_cleanup_requested_at("t1");
    status.mark_cleanup_requested_at("t2");
    assert_eq!(status.cleanup_requested_at.as_deref(), Some("t1"));
    status.mark_cleanup_requested();
    assert_eq!(status.cleanup_requested_at.as_deref(), Some("t1"));
}

#[test]
fn cleanup_request_stamps_the_time_once() {
    let mut status = VolumeStatus::created("v", "t0");
    status.mark_cleanup_requested();
    let first = status.cleanup_requested_at.clone();
    assert!(first.is_some());
    status.mark_cleanup_requested();
    assert_eq!(status.cleanup_requested_at, first);
}

#[test]
fn completion_of_two_nodes_in_any_combination() {
    let reports: [(&str, &str); 6] = [
        ("completed", "failed"),
        ("failed", "completed"),
        ("decommissioned", "completed"),
        ("failed", "decommissioned"),
        ("decommissioned", "decommissioned"),
        ("completed", "completed"),
    ];
    for (ra, rb) in reports {
        for order_ab in [true, false] {
            let mut status = VolumeStatus::created("v", "t0");
            status.add_node("A");
            status.add_node("B");
            assert!(!status.is_cleanup_complete());
            status.mark_cleanup_requested_at("t1");
            assert!(!status.is_cleanup_complete());
            let steps = if order_ab { [("A", ra), ("B", rb)] } else { [("B", rb), ("A", ra)] };
            for (i, (node, how)) in steps.iter().enumerate() {
                match *how {
                    "completed" => status.mark_node_completed(node),
                    "failed" => status.mark_node_failed(node),
                    _ => status.mark_node_decommissioned(node),
                }
                assert_eq!(status.is_cleanup_complete(), i == 1);
            }
            // Stays complete under further re-marking.
            status.mark_node_completed("A");
            status.mark_node_failed("B");
            status.mark_node_decommissioned("A");
            status.mark_cleanup_requested_at("t9");
            assert!(status.is_cleanup_complete());
        }
    }
}

#[test]
fn reports_without_cleanup_request_are_not_complete() {
    let mut status = VolumeStatus::created("v", "t0");
    status.add_node("A");
    status.mark_node_completed("A");
    assert!(!status.is_cleanup_complete());
}

#[test]
fn empty_record_with_cleanup_request_is_complete() {
    let mut status = VolumeStatus::created("v", "t0");
    status.mark_cleanup_requested_at("t1");
    assert!(status.is_cleanup_complete());
}

#[test]
fn pending_nodes_in_list_order() {
    let mut status = VolumeStatus::created("v", "t0");
    for n in ["a", "b", "c", "d", "e"] {
        status.add_node(n);
    }
    status.mark_node_completed("b");
    status.mark_node_failed("d");
    status.mark_node_decommissioned("a");
    let pending: Vec<String> = status.pending_nodes().into_iter().cloned().collect();
    assert_eq!(pending, names(&["c", "e"]));
    assert!(status.has_reported("a"));
    assert!(!status.has_reported("c"));
}

#[test]
fn duplicate_copies_every_field() {
    let mut status = VolumeStatus::created("v", "t0");
    status.add_node("a");
    status.mark_cleanup_requested_at("t1");
    status.mark_node_failed("a");
    status.mark_node_decommissioned("z");
    let copy = status.duplicate();
    assert_eq!(copy.volume_id, "v");
    assert_eq!(copy.created_at, "t0");
    assert_eq!(copy.cleanup_requested_at.as_deref(), Some("t1"));
    assert_eq!(copy.nodes_with_volume, names(&["a"]));
    assert_eq!(copy.nodes_failed, names(&["a"]));
    assert_eq!(copy.nodes_decommissioned, names(&["z"]));
    assert!(copy.nodes_completed.is_empty());
}

#[test]
fn record_key_has_prefix() {
    assert_eq!(configmap_name("v1"), "nlc-vol-v1");
    assert_eq!(configmap_name(""), "nlc-vol-");
}

#[test]
fn registration_stops_once_cleanup_is_requested() {
    let mut status = VolumeStatus::created("v", "t0");
    status.add_node("a");
    status.mark_cleanup_requested_at("t1");
    status.add_node("b");
    assert_eq!(status.nodes_with_volume, names(&["a"]));
}

#[test]
fn a_report_is_terminal() {
    let mut status = VolumeStatus::created("v", "t0");
    status.add_node("a");
    status.add_node("b");
    status.add_node("c");
    status.mark_node_completed("a");
    status.mark_node_failed("a");
    status.mark_node_decommissioned("a");
    status.mark_node_failed("b");
    status.mark_node_completed("b");
    status.mark_node_decommissioned("c");
    status.mark_node_completed("c");
    status.mark_node_failed("c");
    assert_eq!(status.nodes_completed, names(&["a"]));
    assert_eq!(status.nodes_failed, names(&["b"]));
    assert_eq!(status.nodes_decommissioned, names(&["c"]));
}
