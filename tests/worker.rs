use node_local_cache::status::VolumeStatus;
use node_local_cache::worker::{
    cleanup_target, deletion_succeeded, is_single_component, needs_cleanup, node_cleanup_tasks,
    CleanupTask, ListedRecord, LocalDeletion,
};

fn record(key: &str, id: &str, holders: &[&str]) -> ListedRecord {
    let mut s = VolumeStatus::created(id, "t0");
    for h in holders {
        s.add_node(h);
    }
    s.mark_cleanup_requested_at("t1");
    ListedRecord { key: key.to_string(), status: Some(s) }
}

#[test]
fn node_acts_only_where_it_held_and_has_not_reported() {
    let mut s = VolumeStatus::created("v", "t0");
    s.add_node("n1");
    s.add_node("n2");
    s.add_node("n3");
    s.mark_node_completed("n2");
    s.mark_node_failed("n3");
    assert!(needs_cleanup(&s, "n1"));
    assert!(!needs_cleanup(&s, "n2"));
    assert!(!needs_cleanup(&s, "n3"));
    assert!(!needs_cleanup(&s, "n4"));
    // A decommissioned node that is back still cleans its copy.
    s.mark_node_decommissioned("n1");
    assert!(needs_cleanup(&s, "n1"));
}

#[test]
fn tasks_follow_list_order_and_skip_unreadable_records() {
    let mut done = record("k3", "v3", &["me"]);
    done.status.as_mut().unwrap().mark_node_completed("me");
    let records = vec![
        record("k1", "v1", &["other", "me"]),
        ListedRecord { key: "k2".to_string(), status: None },
        done,
        record("k4", "v4", &["other"]),
        record("k5", "../etc", &["me"]),
    ];
    let tasks: Vec<CleanupTask> = node_cleanup_tasks(&records, "me", "/cache");
    assert_eq!(tasks.len(), 2);
    assert_eq!(tasks[0].key, "k1");
    assert_eq!(tasks[0].volume_id, "v1");
    assert_eq!(tasks[0].target.as_deref(), Some("/cache/v1"));
    assert_eq!(tasks[1].key, "k5");
    assert_eq!(tasks[1].target, None);
}

#[test]
fn targets_stay_inside_the_base() {
    assert_eq!(cleanup_target("/cache", "v1").as_deref(), Some("/cache/v1"));
    assert_eq!(cleanup_target("/cache/", "v1").as_deref(), Some("/cache/v1"));
    assert_eq!(cleanup_target("/cache", ".."), None);
    assert_eq!(cleanup_target("/cache", "."), None);
    assert_eq!(cleanup_target("/cache", "a/b"), None);
    assert_eq!(cleanup_target("/cache", "/etc"), None);
    assert_eq!(cleanup_target("/cache", ""), None);
    assert_eq!(cleanup_target("", "v1"), None);
    assert!(is_single_component("..."));
    assert!(is_single_component(".hidden"));
}

#[test]
fn nothing_to_delete_counts_as_success() {
    assert!(deletion_succeeded(&LocalDeletion::AlreadyAbsent));
    assert!(deletion_succeeded(&LocalDeletion::Removed));
    assert!(!deletion_succeeded(&LocalDeletion::Refused));
    assert!(!deletion_succeeded(&LocalDeletion::Failed("permission denied".to_string())));
}
