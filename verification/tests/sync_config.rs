use taskbridge::bridge::Bridge;
use tempfile::TempDir;

fn open_bridge(dir: &TempDir) -> (Bridge, u64) {
    let mut bridge = Bridge::new();
    let path = dir.path().to_str().expect("path utf8").to_string();
    let h = bridge.initialize(&path);
    assert_ne!(h, 0);
    (bridge, h)
}

#[test]
fn sync_rejects_missing_type() {
    let dir = TempDir::new().expect("temp dir");
    let (mut bridge, h) = open_bridge(&dir);
    let cfg = r#"{"bucket":"b","encryption_secret":"s"}"#.to_string();
    assert_eq!(bridge.sync(h, &cfg), "ERROR: Missing 'type' field");
}

#[test]
fn sync_rejects_missing_bucket() {
    let dir = TempDir::new().expect("temp dir");
    let (mut bridge, h) = open_bridge(&dir);
    let cfg = r#"{"type":"gcp","encryption_secret":"s"}"#.to_string();
    assert_eq!(bridge.sync(h, &cfg), "ERROR: Missing 'bucket' field");
}

#[test]
fn sync_rejects_missing_secret_and_leaves_store_unchanged() {
    let dir = TempDir::new().expect("temp dir");
    let (mut bridge, h) = open_bridge(&dir);
    let id = uuid::Uuid::new_v4().to_string();
    bridge
        .create_entity(h, &id, taskbridge::store::now_seconds())
        .expect("Failed to create task");
    let before = bridge.list_ids(h).expect("Failed to get all tasks");
    let doc_before = bridge.get_entity_data(h, &id).expect("Failed to get task");

    let cfg = r#"{"type":"gcp","bucket":"b"}"#.to_string();
    assert_eq!(bridge.sync(h, &cfg), "ERROR: Missing 'encryption_secret' field");

    let after = bridge.list_ids(h).expect("Failed to get all tasks");
    let doc_after = bridge.get_entity_data(h, &id).expect("Failed to get task");
    assert_eq!(before, after);
    assert_eq!(doc_before, doc_after);
}

#[test]
fn sync_rejects_empty_secret() {
    let dir = TempDir::new().expect("temp dir");
    let (mut bridge, h) = open_bridge(&dir);
    let cfg = r#"{"type":"gcp","bucket":"b","encryption_secret":""}"#.to_string();
    assert_eq!(bridge.sync(h, &cfg), "ERROR: Empty encryption secret");
}

#[test]
fn sync_rejects_unknown_backend() {
    let dir = TempDir::new().expect("temp dir");
    let (mut bridge, h) = open_bridge(&dir);
    let cfg = r#"{"type":"ftp","bucket":"b","encryption_secret":"s"}"#.to_string();
    assert_eq!(bridge.sync(h, &cfg), "ERROR: Unknown server type: ftp");
}

#[test]
fn sync_rejects_missing_region_for_aws() {
    let dir = TempDir::new().expect("temp dir");
    let (mut bridge, h) = open_bridge(&dir);
    let cfg = r#"{"type":"aws","bucket":"b","encryption_secret":"s"}"#.to_string();
    assert_eq!(bridge.sync(h, &cfg), "ERROR: Missing 'region' field for AWS");
}

#[test]
fn sync_rejects_missing_credentials_for_aws() {
    let dir = TempDir::new().expect("temp dir");
    let (mut bridge, h) = open_bridge(&dir);
    let cfg =
        r#"{"type":"aws","bucket":"b","encryption_secret":"s","region":"r"}"#.to_string();
    assert_eq!(bridge.sync(h, &cfg), "ERROR: Missing 'credentials' field for AWS");
}

#[test]
fn sync_rejects_credentials_without_type() {
    let dir = TempDir::new().expect("temp dir");
    let (mut bridge, h) = open_bridge(&dir);
    let cfg = r#"{"type":"aws","bucket":"b","encryption_secret":"s","region":"r","credentials":{}}"#
        .to_string();
    assert_eq!(bridge.sync(h, &cfg), "ERROR: Missing 'type' field in AWS credentials");
}

#[test]
fn sync_rejects_unknown_credential_type() {
    let dir = TempDir::new().expect("temp dir");
    let (mut bridge, h) = open_bridge(&dir);
    let cfg = r#"{"type":"aws","bucket":"b","encryption_secret":"s","region":"r","credentials":{"type":"vault"}}"#
        .to_string();
    assert_eq!(bridge.sync(h, &cfg), "ERROR: Unknown AWS credential type: vault");
}

#[test]
fn sync_rejects_incomplete_access_key() {
    let dir = TempDir::new().expect("temp dir");
    let (mut bridge, h) = open_bridge(&dir);
    let cfg = r#"{"type":"aws","bucket":"b","encryption_secret":"s","region":"r","credentials":{"type":"access_key"}}"#
        .to_string();
    assert_eq!(bridge.sync(h, &cfg), "ERROR: Missing 'access_key_id' field");

    let cfg = r#"{"type":"aws","bucket":"b","encryption_secret":"s","region":"r","credentials":{"type":"access_key","access_key_id":"k"}}"#
        .to_string();
    assert_eq!(bridge.sync(h, &cfg), "ERROR: Missing 'secret_access_key' field");
}

#[test]
fn sync_rejects_profile_without_name() {
    let dir = TempDir::new().expect("temp dir");
    let (mut bridge, h) = open_bridge(&dir);
    let cfg = r#"{"type":"aws","bucket":"b","encryption_secret":"s","region":"r","credentials":{"type":"profile"}}"#
        .to_string();
    assert_eq!(bridge.sync(h, &cfg), "ERROR: Missing 'profile_name' field");
}

#[test]
fn sync_rejects_malformed_json() {
    let dir = TempDir::new().expect("temp dir");
    let (mut bridge, h) = open_bridge(&dir);
    let cfg = "{not json".to_string();
    let r = bridge.sync(h, &cfg);
    assert!(r.starts_with("ERROR: Invalid JSON - "));
}

#[test]
fn sync_on_zero_handle_reports_null_pointer() {
    let mut bridge = Bridge::new();
    let cfg = r#"{"type":"gcp","bucket":"b","encryption_secret":"s"}"#.to_string();
    assert_eq!(bridge.sync(0, &cfg), "ERROR: Null replica pointer");
}

#[test]
fn sync_on_destroyed_handle_reports_lock_failure() {
    let dir = TempDir::new().expect("temp dir");
    let (mut bridge, h) = open_bridge(&dir);
    bridge.destroy(h);
    let cfg = r#"{"type":"gcp","bucket":"b","encryption_secret":"s"}"#.to_string();
    assert_eq!(bridge.sync(h, &cfg), "ERROR: Failed to acquire replica lock");
}

#[test]
fn sync_transport_fault_reports_error_without_aborting() {
    let dir = TempDir::new().expect("temp dir");
    let (mut bridge, h) = open_bridge(&dir);
    // a credential file that cannot exist makes the remote call fail early
    let cfg = r#"{"type":"gcp","bucket":"b","encryption_secret":"s","credential_path":"/nonexistent/credentials.json"}"#
        .to_string();
    let r = bridge.sync(h, &cfg);
    assert!(
        r.starts_with("ERROR: Failed to create server - ") || r.starts_with("ERROR: Sync failed - "),
        "unexpected sync result: {}",
        r
    );
    // the bridge is still usable afterwards
    assert!(bridge.list_ids(h).is_ok());
}
