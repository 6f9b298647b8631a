use node_local_cache::volume::{
    generate_volume_id, join_path, starts_with, validate_volume_id, volume_path, VOLUME_ID_PREFIX,
};

#[test]
fn test_generate_volume_id() {
    let id = generate_volume_id("pvc-12345");
    assert!(id.starts_with(VOLUME_ID_PREFIX));
    assert_eq!(id.len(), 4 + 36); // "nlc-" + UUID
}

#[test]
fn test_generate_volume_id_deterministic() {
    // Same input should produce same output (idempotency)
    let id1 = generate_volume_id("pvc-abc-123");
    let id2 = generate_volume_id("pvc-abc-123");
    assert_eq!(id1, id2);

    // Different input should produce different output
    let id3 = generate_volume_id("pvc-def-456");
    assert_ne!(id1, id3);
}

#[test]
fn test_validate_volume_id() {
    // Valid IDs
    assert!(validate_volume_id("nlc-550e8400-e29b-41d4-a716-446655440000"));
    assert!(validate_volume_id(&generate_volume_id("test-pvc")));

    // Invalid IDs
    assert!(!validate_volume_id("invalid"));
    assert!(!validate_volume_id("cv-550e8400-e29b-41d4-a716-446655440000")); // wrong prefix
    assert!(!validate_volume_id("nlc-not-a-uuid"));
    assert!(!validate_volume_id(""));
}

#[test]
fn test_volume_path() {
    let base = "/var/node-local-cache";
    let id = "nlc-550e8400-e29b-41d4-a716-446655440000";
    let path = volume_path(base, id);
    assert_eq!(path, "/var/node-local-cache/nlc-550e8400-e29b-41d4-a716-446655440000");
}

#[test]
fn volume_id_is_prefix_and_hyphenated_uuid() {
    let id = generate_volume_id("pvc-12345");
    let uuid = &id[4..];
    assert_eq!(uuid.len(), 36);
    for (i, c) in uuid.chars().enumerate() {
        if i == 8 || i == 13 || i == 18 || i == 23 {
            assert_eq!(c, '-');
        } else {
            assert!(c.is_ascii_hexdigit() && !c.is_ascii_uppercase());
        }
    }
    // The UUID part is not the name handed in.
    assert_ne!(uuid, "pvc-12345");
    // Version 5 is recorded in the third group.
    assert_eq!(&uuid[14..15], "5");
}

#[test]
fn prefix_alone_is_not_a_volume_id() {
    assert!(!validate_volume_id("nlc-"));
    assert!(validate_volume_id("nlc-550e8400e29b41d4a716446655440000"));
}

#[test]
fn prefix_test_on_strings() {
    assert!(starts_with("nlc-abc", "nlc-"));
    assert!(starts_with("abc", ""));
    assert!(!starts_with("nl", "nlc-"));
    assert!(!starts_with("xlc-abc", "nlc-"));
}

#[test]
fn paths_join_like_unix_paths() {
    assert_eq!(join_path("/base/", "v"), "/base/v");
    assert_eq!(join_path("/base", "/abs"), "/abs");
    assert_eq!(join_path("", "v"), "v");
    assert_eq!(join_path("/base", ""), "/base/");
    assert_eq!(join_path("/", "v"), "/v");
}
