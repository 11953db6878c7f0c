use taskbridge::bridge::Bridge;
use taskbridge::store::now_seconds;
use taskbridge::types::{BridgeError, UndoOutcome};
use tempfile::TempDir;

fn open_bridge(dir: &TempDir) -> (Bridge, u64) {
    let mut bridge = Bridge::new();
    let path = dir.path().to_str().expect("path utf8").to_string();
    let h = bridge.initialize(&path);
    assert_ne!(h, 0);
    (bridge, h)
}

fn doc_of(bridge: &mut Bridge, h: u64, id: &String) -> serde_json::Value {
    let text = bridge.get_entity_data(h, id).expect("Failed to get task");
    serde_json::from_str(&text).expect("document is JSON")
}

fn field<'a>(doc: &'a serde_json::Value, key: &str) -> Option<&'a str> {
    doc.get(key).and_then(|v| v.as_str())
}

/// The reported tag values, in report order.  The store also reports its own
/// synthetic tags here, so tests check membership, not exact contents.
fn tag_values(doc: &serde_json::Value) -> Vec<String> {
    let mut tags = Vec::new();
    let mut i: usize = 0;
    while let Some(t) = field(doc, &format!("tag_{}", i)) {
        tags.push(t.to_string());
        i += 1;
    }
    tags
}

#[test]
fn test_replica_lifecycle() {
    let dir = TempDir::new().expect("Failed to create temp directory");
    let mut bridge = Bridge::new();
    let path = dir.path().to_str().expect("path utf8").to_string();
    let replica_handle = bridge.initialize(&path);
    assert_ne!(replica_handle, 0);
    bridge.destroy(replica_handle);
}

#[test]
fn test_task_creation_and_modification() {
    let dir = TempDir::new().expect("Failed to create temp directory");
    let (mut bridge, h) = open_bridge(&dir);
    let task_uuid = uuid::Uuid::new_v4().to_string();
    let now = now_seconds();

    bridge.create_entity(h, &task_uuid, now).expect("Failed to create task");
    bridge
        .set_description(h, &task_uuid, &"Test task description".to_string(), now)
        .expect("Failed to set description");
    bridge
        .set_status(h, &task_uuid, &"pending".to_string(), now)
        .expect("Failed to set status");
    bridge
        .set_field(h, &task_uuid, &"project".to_string(), &Some("test_project".to_string()), now)
        .expect("Failed to set custom value");

    let doc = doc_of(&mut bridge, h, &task_uuid);
    assert_eq!(field(&doc, "description"), Some("Test task description"));
    assert_eq!(field(&doc, "status"), Some("pending"));
    assert_eq!(field(&doc, "project"), Some("test_project"));
}

#[test]
fn test_tag_operations() {
    let dir = TempDir::new().expect("Failed to create temp directory");
    let (mut bridge, h) = open_bridge(&dir);
    let task_uuid = uuid::Uuid::new_v4().to_string();
    let now = now_seconds();

    bridge.create_entity(h, &task_uuid, now).expect("Failed to create task");
    bridge
        .add_tag(h, &task_uuid, &"work".to_string(), now)
        .expect("Failed to add tag");

    let doc = doc_of(&mut bridge, h, &task_uuid);
    assert!(tag_values(&doc).contains(&"work".to_string()));

    bridge
        .remove_tag(h, &task_uuid, &"work".to_string(), now)
        .expect("Failed to remove tag");

    let doc = doc_of(&mut bridge, h, &task_uuid);
    assert!(!tag_values(&doc).contains(&"work".to_string()));
}

#[test]
fn test_annotation_operations() {
    let dir = TempDir::new().expect("Failed to create temp directory");
    let (mut bridge, h) = open_bridge(&dir);
    let task_uuid = uuid::Uuid::new_v4().to_string();
    let now = now_seconds();

    bridge.create_entity(h, &task_uuid, now).expect("Failed to create task");
    bridge
        .add_annotation(h, &task_uuid, &"Test annotation".to_string(), now)
        .expect("Failed to add annotation");

    let doc = doc_of(&mut bridge, h, &task_uuid);
    assert_eq!(field(&doc, "annotation_0_description"), Some("Test annotation"));
    assert!(field(&doc, "annotation_1_description").is_none());

    bridge
        .remove_annotation(h, &task_uuid, now, now)
        .expect("Failed to remove annotation");

    let doc = doc_of(&mut bridge, h, &task_uuid);
    assert!(field(&doc, "annotation_0_description").is_none());
}

#[test]
fn test_undo_operations() {
    let dir = TempDir::new().expect("Failed to create temp directory");
    let (mut bridge, h) = open_bridge(&dir);
    let now = now_seconds();

    bridge
        .add_undo_point(h, &"before creation".to_string())
        .expect("Failed to add undo point");

    let task_uuid = uuid::Uuid::new_v4().to_string();
    bridge.create_entity(h, &task_uuid, now).expect("Failed to create task");
    bridge
        .set_description(h, &task_uuid, &"Test task".to_string(), now)
        .expect("Failed to set description");

    let text = bridge.get_entity_data(h, &task_uuid).expect("Failed to get task");
    assert_ne!(text, "{}");

    let outcome = bridge.undo(h).expect("Failed to commit undo operations");
    assert_eq!(outcome, UndoOutcome::Undone);
}

#[test]
fn test_data_export() {
    let dir = TempDir::new().expect("Failed to create temp directory");
    let (mut bridge, h) = open_bridge(&dir);
    let task_uuid = uuid::Uuid::new_v4().to_string();
    let now = now_seconds();

    bridge.create_entity(h, &task_uuid, now).expect("Failed to create task");
    bridge
        .set_description(h, &task_uuid, &"Export test task".to_string(), now)
        .expect("Failed to set description");
    bridge
        .set_status(h, &task_uuid, &"pending".to_string(), now)
        .expect("Failed to set status");
    bridge
        .set_field(h, &task_uuid, &"project".to_string(), &Some("export_test".to_string()), now)
        .expect("Failed to set project");

    let all = bridge.list_ids(h).expect("Failed to get all tasks");
    assert!(all.contains(&task_uuid.to_lowercase()));

    let doc = doc_of(&mut bridge, h, &task_uuid);
    assert!(field(&doc, "description").is_some());
    assert!(field(&doc, "status").is_some());
    assert!(field(&doc, "project").is_some());
}

#[test]
fn test_replica_cleanup() {
    let dir = TempDir::new().expect("Failed to create temp directory");
    let (mut bridge, h) = open_bridge(&dir);

    assert!(bridge.list_ids(h).is_ok());

    assert!(bridge.destroy(h));

    assert_eq!(bridge.list_ids(h), Err(BridgeError::NotFound));
    assert!(!bridge.destroy(h));
}

#[test]
fn creation_stamps_entry_equal_to_modified() {
    let dir = TempDir::new().expect("Failed to create temp directory");
    let (mut bridge, h) = open_bridge(&dir);
    let task_uuid = uuid::Uuid::new_v4().to_string();
    let now = now_seconds();

    bridge.create_entity(h, &task_uuid, now).expect("Failed to create task");

    let doc = doc_of(&mut bridge, h, &task_uuid);
    let entry = field(&doc, "entry").expect("entry stamped");
    let modified = field(&doc, "modified").expect("modified stamped");
    assert_eq!(entry, modified);
    assert_eq!(entry, now.to_string());
    assert_eq!(field(&doc, "uuid"), Some(task_uuid.as_str()));
}

#[test]
fn description_update_moves_modified_forward() {
    let dir = TempDir::new().expect("Failed to create temp directory");
    let (mut bridge, h) = open_bridge(&dir);
    let task_uuid = uuid::Uuid::new_v4().to_string();

    bridge.create_entity(h, &task_uuid, 1000).expect("Failed to create task");
    bridge
        .set_description(h, &task_uuid, &"X".to_string(), 2000)
        .expect("Failed to set description");

    let doc = doc_of(&mut bridge, h, &task_uuid);
    assert_eq!(field(&doc, "description"), Some("X"));
    let modified: i64 = field(&doc, "modified").expect("modified stamped").parse().unwrap();
    assert!(modified >= 1000);
    assert_eq!(modified, 2000);
}

#[test]
fn tag_round_trip_restores_tag_set() {
    let dir = TempDir::new().expect("Failed to create temp directory");
    let (mut bridge, h) = open_bridge(&dir);
    let task_uuid = uuid::Uuid::new_v4().to_string();
    let now = now_seconds();

    bridge.create_entity(h, &task_uuid, now).expect("Failed to create task");
    bridge
        .add_tag(h, &task_uuid, &"keep".to_string(), now)
        .expect("Failed to add first tag");

    let before = doc_of(&mut bridge, h, &task_uuid);
    let mut tags_before = tag_values(&before);
    tags_before.sort();

    bridge
        .add_tag(h, &task_uuid, &"transient".to_string(), now)
        .expect("Failed to add tag");
    bridge
        .remove_tag(h, &task_uuid, &"transient".to_string(), now)
        .expect("Failed to remove tag");

    let after = doc_of(&mut bridge, h, &task_uuid);
    let mut tags_after = tag_values(&after);
    tags_after.sort();
    assert_eq!(tags_before, tags_after);
}

#[test]
fn remove_annotation_removes_only_that_annotation() {
    let dir = TempDir::new().expect("Failed to create temp directory");
    let (mut bridge, h) = open_bridge(&dir);
    let task_uuid = uuid::Uuid::new_v4().to_string();

    bridge.create_entity(h, &task_uuid, 1000).expect("Failed to create task");
    bridge
        .add_annotation(h, &task_uuid, &"first note".to_string(), 1100)
        .expect("Failed to add first annotation");
    bridge
        .add_annotation(h, &task_uuid, &"second note".to_string(), 1200)
        .expect("Failed to add second annotation");

    bridge
        .remove_annotation(h, &task_uuid, 1100, 1300)
        .expect("Failed to remove annotation");

    let doc = doc_of(&mut bridge, h, &task_uuid);
    assert_eq!(field(&doc, "annotation_0_entry"), Some("1200"));
    assert_eq!(field(&doc, "annotation_0_description"), Some("second note"));
    assert!(field(&doc, "annotation_1_entry").is_none());
}

#[test]
fn second_undo_reports_nothing_to_undo() {
    let dir = TempDir::new().expect("Failed to create temp directory");
    let (mut bridge, h) = open_bridge(&dir);
    let now = now_seconds();

    bridge
        .add_undo_point(h, &"checkpoint".to_string())
        .expect("Failed to add undo point");
    let task_uuid = uuid::Uuid::new_v4().to_string();
    bridge.create_entity(h, &task_uuid, now).expect("Failed to create task");

    assert_eq!(bridge.undo(h), Ok(UndoOutcome::Undone));
    assert_eq!(bridge.get_entity_data(h, &task_uuid).expect("Failed to get task"), "{}");

    assert_eq!(bridge.undo(h), Ok(UndoOutcome::NothingToUndo));
    assert_eq!(bridge.get_entity_data(h, &task_uuid).expect("Failed to get task"), "{}");
}

#[test]
fn many_distinct_creations_all_listed() {
    let dir = TempDir::new().expect("Failed to create temp directory");
    let (mut bridge, h) = open_bridge(&dir);
    let now = now_seconds();

    let mut ids = Vec::new();
    for _ in 0..40 {
        let id = uuid::Uuid::new_v4().to_string();
        bridge.create_entity(h, &id, now).expect("Failed to create task");
        ids.push(id);
    }

    let all = bridge.list_ids(h).expect("Failed to get all tasks");
    assert_eq!(all.len(), 40);
    for id in &ids {
        assert!(all.contains(&id.to_lowercase()));
    }
}

#[test]
fn destroyed_handle_rejects_every_call() {
    let dir = TempDir::new().expect("Failed to create temp directory");
    let (mut bridge, h) = open_bridge(&dir);
    let now = now_seconds();
    let id = uuid::Uuid::new_v4().to_string();
    bridge.create_entity(h, &id, now).expect("Failed to create task");

    assert!(bridge.destroy(h));

    assert_eq!(bridge.create_entity(h, &id, now), Err(BridgeError::NotFound));
    assert_eq!(
        bridge.set_description(h, &id, &"text".to_string(), now),
        Err(BridgeError::NotFound)
    );
    assert_eq!(bridge.set_status(h, &id, &"pending".to_string(), now), Err(BridgeError::NotFound));
    assert_eq!(bridge.add_tag(h, &id, &"work".to_string(), now), Err(BridgeError::NotFound));
    assert_eq!(bridge.list_ids(h), Err(BridgeError::NotFound));
    assert_eq!(bridge.get_entity_data(h, &id), Err(BridgeError::NotFound));
    assert_eq!(bridge.get_id_at_position(h, 1), Err(BridgeError::NotFound));
    assert_eq!(bridge.undo(h), Err(BridgeError::NotFound));
    assert_eq!(bridge.clear_all(h, now), Err(BridgeError::NotFound));
    assert_eq!(bridge.commit_checkpoint(h), Err(BridgeError::NotFound));

    // a later store reuses nothing of the destroyed handle
    let dir2 = TempDir::new().expect("Failed to create temp directory");
    let path2 = dir2.path().to_str().expect("path utf8").to_string();
    let h2 = bridge.initialize(&path2);
    assert_ne!(h2, 0);
    assert_ne!(h2, h);
    assert_eq!(bridge.list_ids(h), Err(BridgeError::NotFound));
}

#[test]
fn invalid_inputs_are_rejected_exactly() {
    let dir = TempDir::new().expect("Failed to create temp directory");
    let (mut bridge, h) = open_bridge(&dir);
    let now = now_seconds();
    let id = uuid::Uuid::new_v4().to_string();
    bridge.create_entity(h, &id, now).expect("Failed to create task");

    assert_eq!(
        bridge.create_entity(h, &"not-a-uuid".to_string(), now),
        Err(BridgeError::InvalidInput)
    );
    assert_eq!(
        bridge.set_status(h, &id, &"finished".to_string(), now),
        Err(BridgeError::InvalidInput)
    );
    assert_eq!(
        bridge.add_tag(h, &id, &"bad tag".to_string(), now),
        Err(BridgeError::InvalidInput)
    );
    assert_eq!(
        bridge.add_tag(h, &id, &"7seven".to_string(), now),
        Err(BridgeError::InvalidInput)
    );
}

#[test]
fn uppercase_id_is_canonicalized() {
    let dir = TempDir::new().expect("Failed to create temp directory");
    let (mut bridge, h) = open_bridge(&dir);
    let now = now_seconds();
    let id_upper = uuid::Uuid::new_v4().to_string().to_uppercase();

    bridge.create_entity(h, &id_upper, now).expect("Failed to create task");

    let all = bridge.list_ids(h).expect("Failed to get all tasks");
    assert_eq!(all.len(), 1);
    assert_eq!(all[0], id_upper.to_lowercase());

    let doc = doc_of(&mut bridge, h, &id_upper);
    assert_eq!(field(&doc, "uuid"), Some(id_upper.to_lowercase().as_str()));
}

#[test]
fn positions_out_of_range_yield_nothing() {
    let dir = TempDir::new().expect("Failed to create temp directory");
    let (mut bridge, h) = open_bridge(&dir);

    assert_eq!(bridge.get_id_at_position(h, 0), Ok(None));
    assert_eq!(bridge.get_id_at_position(h, -3), Ok(None));
    assert_eq!(bridge.get_id_at_position(h, 1000), Ok(None));
}

#[test]
fn pending_task_found_at_some_position() {
    // The index is 1-based with its first slot always vacant, and the
    // position check is bounded by the number of occupied slots, so the
    // first occupied slot becomes visible once a second task is pending.
    let dir = TempDir::new().expect("Failed to create temp directory");
    let (mut bridge, h) = open_bridge(&dir);
    let now = now_seconds();
    let a = uuid::Uuid::new_v4().to_string();
    let b = uuid::Uuid::new_v4().to_string();

    for id in [&a, &b] {
        bridge.create_entity(h, id, now).expect("Failed to create task");
        bridge
            .set_status(h, id, &"pending".to_string(), now)
            .expect("Failed to set status");
    }
    bridge.commit_checkpoint(h).expect("Failed to rebuild index");

    assert_eq!(bridge.get_id_at_position(h, 1), Ok(None));
    let got = bridge
        .get_id_at_position(h, 2)
        .expect("Failed to resolve position")
        .expect("position 2 filled");
    assert!(got == a.to_lowercase() || got == b.to_lowercase());
}

#[test]
fn clear_all_marks_everything_deleted() {
    let dir = TempDir::new().expect("Failed to create temp directory");
    let (mut bridge, h) = open_bridge(&dir);
    let now = now_seconds();
    let a = uuid::Uuid::new_v4().to_string();
    let b = uuid::Uuid::new_v4().to_string();
    bridge.create_entity(h, &a, now).expect("Failed to create task");
    bridge.create_entity(h, &b, now).expect("Failed to create task");

    bridge.clear_all(h, now).expect("Failed to clear all tasks");

    for id in [&a, &b] {
        let doc = doc_of(&mut bridge, h, id);
        assert_eq!(field(&doc, "status"), Some("deleted"));
    }
}

#[test]
fn explicit_modified_value_is_not_overwritten() {
    let dir = TempDir::new().expect("Failed to create temp directory");
    let (mut bridge, h) = open_bridge(&dir);
    let id = uuid::Uuid::new_v4().to_string();

    bridge.create_entity(h, &id, 1000).expect("Failed to create task");
    bridge
        .set_field(h, &id, &"modified".to_string(), &Some("4242".to_string()), 9999)
        .expect("Failed to set modified explicitly");

    let doc = doc_of(&mut bridge, h, &id);
    assert_eq!(field(&doc, "modified"), Some("4242"));
}

#[test]
fn removing_a_field_deletes_it_and_stamps_modified() {
    let dir = TempDir::new().expect("Failed to create temp directory");
    let (mut bridge, h) = open_bridge(&dir);
    let id = uuid::Uuid::new_v4().to_string();

    bridge.create_entity(h, &id, 1000).expect("Failed to create task");
    bridge
        .set_field(h, &id, &"project".to_string(), &Some("alpha".to_string()), 1100)
        .expect("Failed to set field");
    bridge
        .set_field(h, &id, &"project".to_string(), &None, 1200)
        .expect("Failed to remove field");

    let doc = doc_of(&mut bridge, h, &id);
    assert!(field(&doc, "project").is_none());
    assert_eq!(field(&doc, "modified"), Some("1200"));
}
