use file_storage::policy::can_access;
use file_storage::policy::Action;
use file_storage::record::FileRecord;

fn record(owner: Option<&str>) -> FileRecord {
    FileRecord {
        id: 7,
        name: "notes.txt".to_string(),
        location: "uploads/abc.txt".to_string(),
        size: 12,
        mime_type: Some("text/plain".to_string()),
        owner_id: owner.map(|o| o.to_string()),
        created_at: 0,
        etag: None,
    }
}

#[test]
fn owner_may_delete() {
    assert!(can_access(&record(Some("42")), "42", Action::Delete));
}

#[test]
fn stranger_may_not_delete() {
    assert!(!can_access(&record(Some("42")), "43", Action::Delete));
    assert!(!can_access(&record(Some("42")), "", Action::Delete));
    assert!(!can_access(&record(Some("42")), "420", Action::Delete));
}

#[test]
fn nobody_may_delete_an_ownerless_file() {
    assert!(!can_access(&record(None), "42", Action::Delete));
    assert!(!can_access(&record(None), "", Action::Delete));
}

#[test]
fn everybody_may_read() {
    assert!(can_access(&record(Some("42")), "43", Action::Read));
    assert!(can_access(&record(None), "anyone", Action::Read));
}
