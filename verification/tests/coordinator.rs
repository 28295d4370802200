use file_storage::coordinator::remove_begin;
use file_storage::coordinator::remove_step;
use file_storage::coordinator::retrieve_begin;
use file_storage::coordinator::retrieve_step;
use file_storage::coordinator::store_begin;
use file_storage::coordinator::store_step;
use file_storage::coordinator::RemoveAction;
use file_storage::coordinator::RemoveEvent;
use file_storage::coordinator::RemoveState;
use file_storage::coordinator::RetrieveAction;
use file_storage::coordinator::RetrieveEvent;
use file_storage::coordinator::RetrieveState;
use file_storage::coordinator::StoreAction;
use file_storage::coordinator::StoreEvent;
use file_storage::coordinator::StoreState;
use file_storage::coordinator::WriteStage;
use file_storage::config::BackendKind;
use file_storage::error::StorageError;
use file_storage::record::FileRecord;
use file_storage::storage::BackendOutcome;
use file_storage::storage::StoredObject;

fn stored() -> StoredObject {
    StoredObject {
        file_name: "Report.pdf".to_string(),
        location: "uploads/id.pdf".to_string(),
        size: 2048,
        mime_type: Some("application/pdf".to_string()),
    }
}

fn record(owner: Option<&str>) -> FileRecord {
    FileRecord {
        id: 5,
        name: "Report.pdf".to_string(),
        location: "uploads/id.pdf".to_string(),
        size: 2048,
        mime_type: Some("application/pdf".to_string()),
        owner_id: owner.map(|o| o.to_string()),
        created_at: 99,
        etag: None,
    }
}

fn written() -> StoreState {
    let (state, _) = store_begin(None, None, Some("42".to_string()));
    let (state, _) = store_step(state, StoreEvent::ObjectStored(stored()));
    state
}

#[test]
fn upload_starts_with_the_write() {
    let (state, action) = store_begin(
        Some("Report.pdf".to_string()),
        Some("application/pdf".to_string()),
        Some("42".to_string()),
    );
    assert!(matches!(state, StoreState::Writing { owner_id: Some(ref o) } if o == "42"));
    match action {
        StoreAction::WriteObject { name_hint, content_type } => {
            assert_eq!(name_hint, Some("Report.pdf".to_string()));
            assert_eq!(content_type, Some("application/pdf".to_string()));
        }
        other => panic!("unexpected action {:?}", other),
    }
}

#[test]
fn written_object_is_followed_by_its_row() {
    let (state, _) = store_begin(None, None, Some("42".to_string()));
    let (state, action) = store_step(state, StoreEvent::ObjectStored(stored()));
    assert!(matches!(state, StoreState::Inserting { ref location } if location == "uploads/id.pdf"));
    match action {
        StoreAction::InsertRow(row) => {
            assert_eq!(row.name, "Report.pdf");
            assert_eq!(row.location, "uploads/id.pdf");
            assert_eq!(row.size, 2048);
            assert_eq!(row.mime_type, Some("application/pdf".to_string()));
            assert_eq!(row.owner_id, Some("42".to_string()));
            assert_eq!(row.etag, None);
        }
        other => panic!("unexpected action {:?}", other),
    }
}

#[test]
fn inserted_row_ends_the_upload_with_the_row() {
    let (state, action) = store_step(written(), StoreEvent::RowInserted(record(Some("42"))));
    assert!(matches!(state, StoreState::Finished));
    match action {
        StoreAction::Finish(outcome) => {
            assert_eq!(outcome.reported_errors(), Vec::<StorageError>::new());
            let row = outcome.result.unwrap();
            assert_eq!(row.id, 5);
            assert_eq!(row.size, 2048);
            assert_eq!(outcome.orphan, None);
        }
        other => panic!("unexpected action {:?}", other),
    }
}

#[test]
fn failed_write_ends_the_upload_without_a_row() {
    let (state, _) = store_begin(None, None, None);
    let (state, action) = store_step(state, StoreEvent::ObjectFailed { partial: None });
    assert!(matches!(state, StoreState::Finished));
    match action {
        StoreAction::Finish(outcome) => {
            assert_eq!(outcome.result.err(), Some(StorageError::Transfer));
            assert_eq!(outcome.orphan, None);
        }
        other => panic!("unexpected action {:?}", other),
    }
}

#[test]
fn partial_object_of_a_failed_write_is_deleted() {
    let (state, _) = store_begin(None, None, None);
    let (state, action) =
        store_step(state, StoreEvent::ObjectFailed { partial: Some("uploads/half".to_string()) });
    assert!(matches!(action, StoreAction::DeleteObject { ref location } if location == "uploads/half"));
    let (_, action) = store_step(state, StoreEvent::ObjectDeleted);
    match action {
        StoreAction::Finish(outcome) => {
            assert_eq!(outcome.result.err(), Some(StorageError::Transfer));
            assert_eq!(outcome.orphan, None);
        }
        other => panic!("unexpected action {:?}", other),
    }
}

#[test]
fn partial_object_that_stays_is_reported() {
    let (state, _) = store_begin(None, None, None);
    let (state, _) =
        store_step(state, StoreEvent::ObjectFailed { partial: Some("uploads/half".to_string()) });
    let (_, action) = store_step(state, StoreEvent::ObjectDeleteFailed);
    match action {
        StoreAction::Finish(outcome) => {
            assert_eq!(outcome.result.err(), Some(StorageError::Transfer));
            assert_eq!(outcome.orphan, Some("uploads/half".to_string()));
        }
        other => panic!("unexpected action {:?}", other),
    }
}

#[test]
fn failed_insert_is_compensated_by_a_delete() {
    let (state, action) = store_step(written(), StoreEvent::RowFailed);
    assert!(matches!(state, StoreState::Compensating { ref location } if location == "uploads/id.pdf"));
    assert!(matches!(action, StoreAction::DeleteObject { ref location } if location == "uploads/id.pdf"));
    let (state, action) = store_step(state, StoreEvent::ObjectDeleted);
    assert!(matches!(state, StoreState::Finished));
    match action {
        StoreAction::Finish(outcome) => {
            assert_eq!(outcome.result.err(), Some(StorageError::Catalog));
            assert_eq!(outcome.orphan, None);
        }
        other => panic!("unexpected action {:?}", other),
    }
}

#[test]
fn failed_compensation_reports_the_orphan() {
    let (state, _) = store_step(written(), StoreEvent::RowFailed);
    let (_, action) = store_step(state, StoreEvent::ObjectDeleteFailed);
    match action {
        StoreAction::Finish(outcome) => {
            assert_eq!(
                outcome.reported_errors(),
                vec![StorageError::Catalog, StorageError::OrphanedObject]
            );
            assert_eq!(outcome.result.err(), Some(StorageError::Catalog));
            assert_eq!(outcome.orphan, Some("uploads/id.pdf".to_string()));
        }
        other => panic!("unexpected action {:?}", other),
    }
}

#[test]
fn finished_upload_takes_no_further_step() {
    let (state, _) = store_step(written(), StoreEvent::RowInserted(record(None)));
    let (state, action) = store_step(state, StoreEvent::RowInserted(record(None)));
    assert!(matches!(state, StoreState::Finished));
    match action {
        StoreAction::Finish(outcome) => assert_eq!(outcome.result.err(), Some(StorageError::Transfer)),
        other => panic!("unexpected action {:?}", other),
    }
}

#[test]
fn download_looks_the_row_up_first() {
    let (state, action) = retrieve_begin(5);
    assert!(matches!(state, RetrieveState::Looking));
    assert!(matches!(action, RetrieveAction::FindRow { id: 5 }));
}

#[test]
fn download_of_an_unknown_id_never_asks_the_backend() {
    let (state, _) = retrieve_begin(5);
    let (state, action) = retrieve_step(state, RetrieveEvent::RowMissing);
    assert!(matches!(state, RetrieveState::Finished));
    assert!(matches!(action, RetrieveAction::Finish(Err(StorageError::NotFound))));
}

#[test]
fn download_opens_the_object_of_the_row() {
    let (state, _) = retrieve_begin(5);
    let (state, action) = retrieve_step(state, RetrieveEvent::RowFound(record(None)));
    assert!(matches!(action, RetrieveAction::OpenObject { ref location } if location == "uploads/id.pdf"));
    let (_, action) = retrieve_step(state, RetrieveEvent::ObjectOpened);
    match action {
        RetrieveAction::Finish(Ok(row)) => {
            assert_eq!(row.id, 5);
            assert_eq!(row.name, "Report.pdf");
        }
        other => panic!("unexpected action {:?}", other),
    }
}

#[test]
fn missing_object_is_a_dangling_record() {
    let (state, _) = retrieve_begin(5);
    let (state, _) = retrieve_step(state, RetrieveEvent::RowFound(record(None)));
    let (_, action) = retrieve_step(state, RetrieveEvent::ObjectMissing);
    assert!(matches!(action, RetrieveAction::Finish(Err(StorageError::DanglingRecord))));
}

#[test]
fn failing_lookup_and_failing_open_are_told_apart() {
    let (state, _) = retrieve_begin(5);
    let (_, action) = retrieve_step(state, RetrieveEvent::LookupFailed);
    assert!(matches!(action, RetrieveAction::Finish(Err(StorageError::Catalog))));
    let (state, _) = retrieve_begin(5);
    let (state, _) = retrieve_step(state, RetrieveEvent::RowFound(record(None)));
    let (_, action) = retrieve_step(state, RetrieveEvent::ObjectFailed);
    assert!(matches!(action, RetrieveAction::Finish(Err(StorageError::Transfer))));
}

#[test]
fn deletion_by_the_owner_takes_the_row_first() {
    let (state, action) = remove_begin(5, "42".to_string());
    assert!(matches!(action, RemoveAction::FindRow { id: 5 }));
    let (state, action) = remove_step(state, RemoveEvent::RowFound(record(Some("42"))));
    assert!(matches!(state, RemoveState::DeletingRow { ref location } if location == "uploads/id.pdf"));
    assert!(matches!(action, RemoveAction::DeleteRow { id: 5 }));
    let (state, action) = remove_step(state, RemoveEvent::RowDeleted);
    assert!(matches!(action, RemoveAction::DeleteObject { ref location } if location == "uploads/id.pdf"));
    let (state, action) = remove_step(state, RemoveEvent::ObjectDeleted);
    assert!(matches!(state, RemoveState::Finished));
    match action {
        RemoveAction::Finish(outcome) => {
            assert_eq!(outcome.reported_errors(), Vec::<StorageError>::new());
            assert_eq!(outcome.result, Ok(()));
            assert_eq!(outcome.orphan, None);
        }
        other => panic!("unexpected action {:?}", other),
    }
}

#[test]
fn deletion_by_a_stranger_is_forbidden_and_touches_nothing() {
    let (state, _) = remove_begin(5, "43".to_string());
    let (state, action) = remove_step(state, RemoveEvent::RowFound(record(Some("42"))));
    assert!(matches!(state, RemoveState::Finished));
    match action {
        RemoveAction::Finish(outcome) => {
            assert_eq!(outcome.reported_errors(), vec![StorageError::Forbidden]);
            assert_eq!(outcome.result, Err(StorageError::Forbidden));
            assert_eq!(outcome.orphan, None);
        }
        other => panic!("unexpected action {:?}", other),
    }
}

#[test]
fn deletion_of_an_ownerless_file_is_forbidden() {
    let (state, _) = remove_begin(5, "42".to_string());
    let (_, action) = remove_step(state, RemoveEvent::RowFound(record(None)));
    match action {
        RemoveAction::Finish(outcome) => assert_eq!(outcome.result, Err(StorageError::Forbidden)),
        other => panic!("unexpected action {:?}", other),
    }
}

#[test]
fn deletion_of_an_unknown_id_is_not_found() {
    let (state, _) = remove_begin(5, "42".to_string());
    let (_, action) = remove_step(state, RemoveEvent::RowMissing);
    match action {
        RemoveAction::Finish(outcome) => assert_eq!(outcome.result, Err(StorageError::NotFound)),
        other => panic!("unexpected action {:?}", other),
    }
}

#[test]
fn failed_row_delete_leaves_the_object() {
    let (state, _) = remove_begin(5, "42".to_string());
    let (state, _) = remove_step(state, RemoveEvent::RowFound(record(Some("42"))));
    let (state, action) = remove_step(state, RemoveEvent::RowDeleteFailed);
    assert!(matches!(state, RemoveState::Finished));
    match action {
        RemoveAction::Finish(outcome) => {
            assert_eq!(outcome.result, Err(StorageError::Catalog));
            assert_eq!(outcome.orphan, None);
        }
        other => panic!("unexpected action {:?}", other),
    }
}

#[test]
fn row_deleted_by_someone_else_is_not_found() {
    let (state, _) = remove_begin(5, "42".to_string());
    let (state, _) = remove_step(state, RemoveEvent::RowFound(record(Some("42"))));
    let (_, action) = remove_step(state, RemoveEvent::RowMissing);
    match action {
        RemoveAction::Finish(outcome) => assert_eq!(outcome.result, Err(StorageError::NotFound)),
        other => panic!("unexpected action {:?}", other),
    }
}

#[test]
fn failed_object_delete_is_reported_but_the_deletion_stands() {
    let (state, _) = remove_begin(5, "42".to_string());
    let (state, _) = remove_step(state, RemoveEvent::RowFound(record(Some("42"))));
    let (state, _) = remove_step(state, RemoveEvent::RowDeleted);
    let (_, action) = remove_step(state, RemoveEvent::ObjectDeleteFailed);
    match action {
        RemoveAction::Finish(outcome) => {
            assert_eq!(outcome.reported_errors(), vec![StorageError::OrphanedObject]);
            assert_eq!(outcome.result, Ok(()));
            assert_eq!(outcome.orphan, Some("uploads/id.pdf".to_string()));
        }
        other => panic!("unexpected action {:?}", other),
    }
}

#[test]
fn object_that_was_not_there_counts_as_deleted() {
    assert!(matches!(StoreEvent::from_delete(BackendOutcome::Missing), StoreEvent::ObjectDeleted));
    assert!(matches!(StoreEvent::from_delete(BackendOutcome::Done), StoreEvent::ObjectDeleted));
    assert!(matches!(StoreEvent::from_delete(BackendOutcome::Failed), StoreEvent::ObjectDeleteFailed));
    assert!(matches!(RemoveEvent::from_delete(BackendOutcome::Missing), RemoveEvent::ObjectDeleted));
    assert!(matches!(RemoveEvent::from_delete(BackendOutcome::Done), RemoveEvent::ObjectDeleted));
    assert!(matches!(RemoveEvent::from_delete(BackendOutcome::Failed), RemoveEvent::ObjectDeleteFailed));
}

#[test]
fn answers_of_open_become_events() {
    assert!(matches!(RetrieveEvent::from_open(BackendOutcome::Done), RetrieveEvent::ObjectOpened));
    assert!(matches!(RetrieveEvent::from_open(BackendOutcome::Missing), RetrieveEvent::ObjectMissing));
    assert!(matches!(RetrieveEvent::from_open(BackendOutcome::Failed), RetrieveEvent::ObjectFailed));
}

#[test]
fn deletion_that_took_no_row_found_none() {
    assert!(matches!(RemoveEvent::from_deleted_rows(0), RemoveEvent::RowMissing));
    assert!(matches!(RemoveEvent::from_deleted_rows(1), RemoveEvent::RowDeleted));
}

#[test]
fn deleting_twice_in_the_backend_never_fails_a_deletion() {
    let (state, _) = remove_begin(5, "42".to_string());
    let (state, _) = remove_step(state, RemoveEvent::RowFound(record(Some("42"))));
    let (state, _) = remove_step(state, RemoveEvent::RowDeleted);
    let (_, action) = remove_step(state, RemoveEvent::from_delete(BackendOutcome::Missing));
    match action {
        RemoveAction::Finish(outcome) => {
            assert_eq!(outcome.result, Ok(()));
            assert_eq!(outcome.orphan, None);
        }
        other => panic!("unexpected action {:?}", other),
    }
}

fn partial_of(event: StoreEvent) -> Option<String> {
    match event {
        StoreEvent::ObjectFailed { partial } => partial,
        other => panic!("unexpected event {:?}", other),
    }
}

#[test]
fn failed_write_on_disk_leaves_a_file_once_it_was_created() {
    let at = "./uploads/x".to_string();
    let event = StoreEvent::from_failed_write(BackendKind::Disk, WriteStage::Opening, at.clone());
    assert_eq!(partial_of(event), None);
    let event = StoreEvent::from_failed_write(BackendKind::Disk, WriteStage::Streaming, at.clone());
    assert_eq!(partial_of(event), Some(at.clone()));
    let event = StoreEvent::from_failed_write(BackendKind::Disk, WriteStage::Finishing, at.clone());
    assert_eq!(partial_of(event), Some(at));
}

#[test]
fn failed_write_to_the_object_store_leaves_something_only_at_the_put() {
    let at = "uploads/x".to_string();
    let event =
        StoreEvent::from_failed_write(BackendKind::ObjectStore, WriteStage::Opening, at.clone());
    assert_eq!(partial_of(event), None);
    let event =
        StoreEvent::from_failed_write(BackendKind::ObjectStore, WriteStage::Streaming, at.clone());
    assert_eq!(partial_of(event), None);
    let event =
        StoreEvent::from_failed_write(BackendKind::ObjectStore, WriteStage::Finishing, at.clone());
    assert_eq!(partial_of(event), Some(at));
}

#[test]
fn write_that_broke_off_while_streaming_has_its_file_deleted() {
    let (state, _) = store_begin(None, None, None);
    let event = StoreEvent::from_failed_write(
        BackendKind::Disk,
        WriteStage::Streaming,
        "./uploads/x".to_string(),
    );
    let (_, action) = store_step(state, event);
    assert!(matches!(action, StoreAction::DeleteObject { ref location } if location == "./uploads/x"));
}
