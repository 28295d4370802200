use vstd::prelude::*;
use crate::config::BackendKind;
use crate::error::StorageError;
use crate::policy::can_access;
use crate::policy::may_access;
use crate::policy::Action;
use crate::record::FileRecord;
use crate::record::NewFileRecord;
use crate::storage::delete_result;
use crate::storage::BackendOutcome;
use crate::storage::StoredObject;

verus! {

// The coordinator keeps a backend object and its catalog row together. It
// performs no I/O itself: for each operation it says what is to be done next,
// the caller does it against the backend or the catalog and reports what
// happened, and the coordinator decides on from there.

/// How an upload ended: the inserted row or the error, and the address of an
/// object that was left behind in the backend, if one was.
#[derive(Debug)]
pub struct StoreOutcome {
    pub result: Result<FileRecord, StorageError>,
    pub orphan: Option<String>,
}

/// The errors to report for an ending: the error of the operation, if it
/// failed, and an orphaned object, if one was left behind.
pub open spec fn errors_to_report<T>(result: Result<T, StorageError>, orphan: Option<String>) -> Seq<
    StorageError,
> {
    let first = match result {
        Ok(_) => Seq::<StorageError>::empty(),
        Err(e) => seq![e],
    };
    match orphan {
        Some(_) => first.push(StorageError::OrphanedObject),
        None => first,
    }
}

impl StoreOutcome {
    /// Every error that the ending of the upload is to be reported with.
    pub fn reported_errors(&self) -> (errors: Vec<StorageError>)
        ensures
            errors@ == errors_to_report(self.result, self.orphan),
    {
        let mut errors: Vec<StorageError> = Vec::new();
        match &self.result {
            Ok(_) => {},
            Err(e) => {
                errors.push(*e);
            },
        }
        if self.orphan.is_some() {
            errors.push(StorageError::OrphanedObject);
        }
        errors
    }
}

/// Where an upload stands.
#[derive(Debug)]
pub enum StoreState {
    /// The backend is writing the payload.
    Writing { owner_id: Option<String> },
    /// The payload is written at `location`; the catalog is inserting the row.
    Inserting { location: String },
    /// The insert failed; the backend is deleting the object again.
    Compensating { location: String },
    /// The write broke off; the backend is deleting what was written.
    Discarding { location: String },
    Finished,
}

/// What the caller reports of the step it was asked to do.
#[derive(Debug)]
pub enum StoreEvent {
    ObjectStored(StoredObject),
    /// The write failed; `partial` is the address of what it left behind.
    ObjectFailed { partial: Option<String> },
    RowInserted(FileRecord),
    RowFailed,
    ObjectDeleted,
    ObjectDeleteFailed,
}

/// Whether a backend's answer to `Delete` means that the object is gone: it
/// does unless the backend failed. An object that was not there is gone.
pub open spec fn is_gone(outcome: BackendOutcome) -> bool {
    outcome != BackendOutcome::Failed
}

/// How far the write of an upload had come when it failed.
#[derive(Clone, Copy, Debug, PartialEq, Eq, Structural)]
pub enum WriteStage {
    /// The object was being created; no byte was written.
    Opening,
    /// The payload was being read and handed to the backend chunk by chunk.
    Streaming,
    /// The payload was read to its end; the backend was making it durable.
    Finishing,
}

/// Whether a write that failed at `stage` may have left something at the
/// address it was to fill. On disk the file is there from the moment it was
/// created. For the object store the payload is gathered in memory first, so
/// that only the final put can leave an object.
pub open spec fn leaves_partial(backend: BackendKind, stage: WriteStage) -> bool {
    match backend {
        BackendKind::Disk => stage != WriteStage::Opening,
        BackendKind::ObjectStore => stage == WriteStage::Finishing,
    }
}

impl StoreEvent {
    /// The event for a write to `location` that failed at `stage`: it names
    /// the address where the failure may have left a partial object, for the
    /// coordinator to have it deleted.
    pub fn from_failed_write(backend: BackendKind, stage: WriteStage, location: String) -> (event:
        StoreEvent)
        ensures
            event == (StoreEvent::ObjectFailed {
                partial: if leaves_partial(backend, stage) {
                    Some(location)
                } else {
                    None
                },
            }),
    {
        let partial = match backend {
            BackendKind::Disk => match stage {
                WriteStage::Opening => None,
                _ => Some(location),
            },
            BackendKind::ObjectStore => match stage {
                WriteStage::Finishing => Some(location),
                _ => None,
            },
        };
        StoreEvent::ObjectFailed { partial }
    }

    /// The event for a backend's answer to the deletion of an object.
    pub fn from_delete(outcome: BackendOutcome) -> (event: StoreEvent)
        ensures
            event == if is_gone(outcome) {
                StoreEvent::ObjectDeleted
            } else {
                StoreEvent::ObjectDeleteFailed
            },
    {
        match delete_result(outcome) {
            Ok(_) => StoreEvent::ObjectDeleted,
            Err(_) => StoreEvent::ObjectDeleteFailed,
        }
    }
}

/// What the caller is to do next.
#[derive(Debug)]
pub enum StoreAction {
    WriteObject { name_hint: Option<String>, content_type: Option<String> },
    InsertRow(NewFileRecord),
    DeleteObject { location: String },
    Finish(StoreOutcome),
}

/// The row to insert for a stored object.
pub open spec fn pending_row(stored: StoredObject, owner_id: Option<String>) -> NewFileRecord {
    NewFileRecord {
        name: stored.file_name,
        location: stored.location,
        size: stored.size,
        mime_type: stored.mime_type,
        owner_id,
        etag: None,
    }
}

/// The end of an upload with an error.
pub open spec fn store_failed(error: StorageError, orphan: Option<String>) -> (
    StoreState,
    StoreAction,
) {
    (StoreState::Finished, StoreAction::Finish(StoreOutcome { result: Err(error), orphan }))
}

/// The upload protocol. Bytes first, row second; a failed insert is answered
/// by deleting the object again, and an object that cannot be deleted is
/// named in the outcome. An event that does not answer the step asked for
/// counts as the failure of that step.
pub open spec fn store_transition(state: StoreState, event: StoreEvent) -> (
    StoreState,
    StoreAction,
) {
    match state {
        StoreState::Writing { owner_id } => match event {
            StoreEvent::ObjectStored(stored) => (
                StoreState::Inserting { location: stored.location },
                StoreAction::InsertRow(pending_row(stored, owner_id)),
            ),
            StoreEvent::ObjectFailed { partial: Some(location) } => (
                StoreState::Discarding { location },
                StoreAction::DeleteObject { location },
            ),
            _ => store_failed(StorageError::Transfer, None),
        },
        StoreState::Inserting { location } => match event {
            StoreEvent::RowInserted(record) => (
                StoreState::Finished,
                StoreAction::Finish(StoreOutcome { result: Ok(record), orphan: None }),
            ),
            _ => (StoreState::Compensating { location }, StoreAction::DeleteObject { location }),
        },
        StoreState::Compensating { location } => match event {
            StoreEvent::ObjectDeleted => store_failed(StorageError::Catalog, None),
            _ => store_failed(StorageError::Catalog, Some(location)),
        },
        StoreState::Discarding { location } => match event {
            StoreEvent::ObjectDeleted => store_failed(StorageError::Transfer, None),
            _ => store_failed(StorageError::Transfer, Some(location)),
        },
        StoreState::Finished => store_failed(StorageError::Transfer, None),
    }
}

/// Opens an upload: the first step is to write the payload.
pub fn store_begin(
    name_hint: Option<String>,
    content_type: Option<String>,
    owner_id: Option<String>,
) -> (next: (StoreState, StoreAction))
    ensures
        next == (
            StoreState::Writing { owner_id },
            StoreAction::WriteObject { name_hint, content_type },
        ),
{
    (StoreState::Writing { owner_id }, StoreAction::WriteObject { name_hint, content_type })
}

fn store_fail(error: StorageError, orphan: Option<String>) -> (next: (StoreState, StoreAction))
    ensures
        next == store_failed(error, orphan),
{
    (StoreState::Finished, StoreAction::Finish(StoreOutcome { result: Err(error), orphan }))
}

/// Takes an upload one step on.
pub fn store_step(state: StoreState, event: StoreEvent) -> (next: (StoreState, StoreAction))
    ensures
        next == store_transition(state, event),
{
    match state {
        StoreState::Writing { owner_id } => match event {
            StoreEvent::ObjectStored(stored) => {
                let location = stored.location.clone();
                let row = NewFileRecord {
                    name: stored.file_name,
                    location: stored.location,
                    size: stored.size,
                    mime_type: stored.mime_type,
                    owner_id,
                    etag: None,
                };
                (StoreState::Inserting { location }, StoreAction::InsertRow(row))
            },
            StoreEvent::ObjectFailed { partial: Some(location) } => {
                let target = location.clone();
                (StoreState::Discarding { location }, StoreAction::DeleteObject { location: target })
            },
            _ => store_fail(StorageError::Transfer, None),
        },
        StoreState::Inserting { location } => match event {
            StoreEvent::RowInserted(record) => (
                StoreState::Finished,
                StoreAction::Finish(StoreOutcome { result: Ok(record), orphan: None }),
            ),
            _ => {
                let target = location.clone();
                (StoreState::Compensating { location }, StoreAction::DeleteObject { location: target })
            },
        },
        StoreState::Compensating { location } => match event {
            StoreEvent::ObjectDeleted => store_fail(StorageError::Catalog, None),
            _ => store_fail(StorageError::Catalog, Some(location)),
        },
        StoreState::Discarding { location } => match event {
            StoreEvent::ObjectDeleted => store_fail(StorageError::Transfer, None),
            _ => store_fail(StorageError::Transfer, Some(location)),
        },
        StoreState::Finished => store_fail(StorageError::Transfer, None),
    }
}

/// Where a download stands.
#[derive(Debug)]
pub enum RetrieveState {
    /// The catalog is looking the row up.
    Looking,
    /// The row is found; the backend is opening the object.
    Opening { record: FileRecord },
    Finished,
}

/// What the caller reports of the step it was asked to do.
#[derive(Debug)]
pub enum RetrieveEvent {
    RowFound(FileRecord),
    RowMissing,
    LookupFailed,
    ObjectOpened,
    ObjectMissing,
    ObjectFailed,
}

impl RetrieveEvent {
    /// The event for a backend's answer to the opening of an object.
    pub fn from_open(outcome: BackendOutcome) -> (event: RetrieveEvent)
        ensures
            event == match outcome {
                BackendOutcome::Done => RetrieveEvent::ObjectOpened,
                BackendOutcome::Missing => RetrieveEvent::ObjectMissing,
                BackendOutcome::Failed => RetrieveEvent::ObjectFailed,
            },
    {
        match outcome {
            BackendOutcome::Done => RetrieveEvent::ObjectOpened,
            BackendOutcome::Missing => RetrieveEvent::ObjectMissing,
            BackendOutcome::Failed => RetrieveEvent::ObjectFailed,
        }
    }
}

/// What the caller is to do next.
#[derive(Debug)]
pub enum RetrieveAction {
    FindRow { id: i32 },
    OpenObject { location: String },
    /// The download is settled: with `Ok`, the caller streams the object it
    /// opened and announces it by the record.
    Finish(Result<FileRecord, StorageError>),
}

/// The end of a download with an error.
pub open spec fn retrieve_failed(error: StorageError) -> (RetrieveState, RetrieveAction) {
    (RetrieveState::Finished, RetrieveAction::Finish(Err(error)))
}

/// The download protocol. An unknown identifier ends it before the backend
/// is touched; a row whose object is missing is a dangling record.
pub open spec fn retrieve_transition(state: RetrieveState, event: RetrieveEvent) -> (
    RetrieveState,
    RetrieveAction,
) {
    match state {
        RetrieveState::Looking => match event {
            RetrieveEvent::RowFound(record) => (
                RetrieveState::Opening { record },
                RetrieveAction::OpenObject { location: record.location },
            ),
            RetrieveEvent::RowMissing => retrieve_failed(StorageError::NotFound),
            _ => retrieve_failed(StorageError::Catalog),
        },
        RetrieveState::Opening { record } => match event {
            RetrieveEvent::ObjectOpened => (
                RetrieveState::Finished,
                RetrieveAction::Finish(Ok(record)),
            ),
            RetrieveEvent::ObjectMissing => retrieve_failed(StorageError::DanglingRecord),
            _ => retrieve_failed(StorageError::Transfer),
        },
        RetrieveState::Finished => retrieve_failed(StorageError::Transfer),
    }
}

/// Opens a download: the first step is to look the row up.
pub fn retrieve_begin(id: i32) -> (next: (RetrieveState, RetrieveAction))
    ensures
        next == (RetrieveState::Looking, RetrieveAction::FindRow { id }),
{
    (RetrieveState::Looking, RetrieveAction::FindRow { id })
}

fn retrieve_fail(error: StorageError) -> (next: (RetrieveState, RetrieveAction))
    ensures
        next == retrieve_failed(error),
{
    (RetrieveState::Finished, RetrieveAction::Finish(Err(error)))
}

/// Takes a download one step on.
pub fn retrieve_step(state: RetrieveState, event: RetrieveEvent) -> (next: (
    RetrieveState,
    RetrieveAction,
))
    ensures
        next == retrieve_transition(state, event),
{
    match state {
        RetrieveState::Looking => match event {
            RetrieveEvent::RowFound(record) => {
                let location = record.location.clone();
                (RetrieveState::Opening { record }, RetrieveAction::OpenObject { location })
            },
            RetrieveEvent::RowMissing => retrieve_fail(StorageError::NotFound),
            _ => retrieve_fail(StorageError::Catalog),
        },
        RetrieveState::Opening { record } => match event {
            RetrieveEvent::ObjectOpened => (
                RetrieveState::Finished,
                RetrieveAction::Finish(Ok(record)),
            ),
            RetrieveEvent::ObjectMissing => retrieve_fail(StorageError::DanglingRecord),
            _ => retrieve_fail(StorageError::Transfer),
        },
        RetrieveState::Finished => retrieve_fail(StorageError::Transfer),
    }
}

/// How a deletion ended: done or the error, and the address of an object
/// that was left behind in the backend, if one was.
#[derive(Debug)]
pub struct RemoveOutcome {
    pub result: Result<(), StorageError>,
    pub orphan: Option<String>,
}

impl RemoveOutcome {
    /// Every error that the ending of the deletion is to be reported with.
    pub fn reported_errors(&self) -> (errors: Vec<StorageError>)
        ensures
            errors@ == errors_to_report(self.result, self.orphan),
    {
        let mut errors: Vec<StorageError> = Vec::new();
        match &self.result {
            Ok(_) => {},
            Err(e) => {
                errors.push(*e);
            },
        }
        if self.orphan.is_some() {
            errors.push(StorageError::OrphanedObject);
        }
        errors
    }
}

/// Where a deletion stands.
#[derive(Debug)]
pub enum RemoveState {
    /// The catalog is looking the row up for `requester`.
    Looking { requester: String },
    /// The requester owns the file; the catalog is deleting the row.
    DeletingRow { location: String },
    /// The row is gone; the backend is deleting the object.
    DeletingObject { location: String },
    Finished,
}

/// What the caller reports of the step it was asked to do.
#[derive(Debug)]
pub enum RemoveEvent {
    RowFound(FileRecord),
    RowMissing,
    LookupFailed,
    RowDeleted,
    RowDeleteFailed,
    ObjectDeleted,
    ObjectDeleteFailed,
}

impl RemoveEvent {
    /// The event for a backend's answer to the deletion of an object.
    pub fn from_delete(outcome: BackendOutcome) -> (event: RemoveEvent)
        ensures
            event == if is_gone(outcome) {
                RemoveEvent::ObjectDeleted
            } else {
                RemoveEvent::ObjectDeleteFailed
            },
    {
        match delete_result(outcome) {
            Ok(_) => RemoveEvent::ObjectDeleted,
            Err(_) => RemoveEvent::ObjectDeleteFailed,
        }
    }

    /// The event for the number of rows that a deletion took out of the
    /// catalog: where it took none, the row was not there.
    pub fn from_deleted_rows(count: usize) -> (event: RemoveEvent)
        ensures
            event == if count == 0 {
                RemoveEvent::RowMissing
            } else {
                RemoveEvent::RowDeleted
            },
    {
        if count == 0 {
            RemoveEvent::RowMissing
        } else {
            RemoveEvent::RowDeleted
        }
    }
}

/// What the caller is to do next.
#[derive(Debug)]
pub enum RemoveAction {
    FindRow { id: i32 },
    DeleteRow { id: i32 },
    DeleteObject { location: String },
    Finish(RemoveOutcome),
}

/// The end of a deletion.
pub open spec fn remove_finished(result: Result<(), StorageError>, orphan: Option<String>) -> (
    RemoveState,
    RemoveAction,
) {
    (RemoveState::Finished, RemoveAction::Finish(RemoveOutcome { result, orphan }))
}

/// The deletion protocol. Only the owner gets past the lookup. The row goes
/// first and the object second: once the row is gone the file is deleted,
/// and an object that cannot be deleted is named in the outcome without
/// failing it. A row that cannot be deleted ends the deletion with the
/// object untouched.
pub open spec fn remove_transition(state: RemoveState, event: RemoveEvent) -> (
    RemoveState,
    RemoveAction,
) {
    match state {
        RemoveState::Looking { requester } => match event {
            RemoveEvent::RowFound(record) => if may_access(record@, requester@, Action::Delete) {
                (
                    RemoveState::DeletingRow { location: record.location },
                    RemoveAction::DeleteRow { id: record.id },
                )
            } else {
                remove_finished(Err(StorageError::Forbidden), None)
            },
            RemoveEvent::RowMissing => remove_finished(Err(StorageError::NotFound), None),
            _ => remove_finished(Err(StorageError::Catalog), None),
        },
        RemoveState::DeletingRow { location } => match event {
            RemoveEvent::RowDeleted => (
                RemoveState::DeletingObject { location },
                RemoveAction::DeleteObject { location },
            ),
            RemoveEvent::RowMissing => remove_finished(Err(StorageError::NotFound), None),
            _ => remove_finished(Err(StorageError::Catalog), None),
        },
        RemoveState::DeletingObject { location } => match event {
            RemoveEvent::ObjectDeleted => remove_finished(Ok(()), None),
            _ => remove_finished(Ok(()), Some(location)),
        },
        RemoveState::Finished => remove_finished(Err(StorageError::Catalog), None),
    }
}

/// Opens a deletion asked for by `requester`: the first step is to look the
/// row up.
pub fn remove_begin(id: i32, requester: String) -> (next: (RemoveState, RemoveAction))
    ensures
        next == (RemoveState::Looking { requester }, RemoveAction::FindRow { id }),
{
    (RemoveState::Looking { requester }, RemoveAction::FindRow { id })
}

fn remove_finish(result: Result<(), StorageError>, orphan: Option<String>) -> (next: (
    RemoveState,
    RemoveAction,
))
    ensures
        next == remove_finished(result, orphan),
{
    (RemoveState::Finished, RemoveAction::Finish(RemoveOutcome { result, orphan }))
}

/// Takes a deletion one step on.
pub fn remove_step(state: RemoveState, event: RemoveEvent) -> (next: (RemoveState, RemoveAction))
    ensures
        next == remove_transition(state, event),
{
    match state {
        RemoveState::Looking { requester } => match event {
            RemoveEvent::RowFound(record) => {
                if can_access(&record, requester.as_str(), Action::Delete) {
                    (
                        RemoveState::DeletingRow { location: record.location },
                        RemoveAction::DeleteRow { id: record.id },
                    )
                } else {
                    remove_finish(Err(StorageError::Forbidden), None)
                }
            },
            RemoveEvent::RowMissing => remove_finish(Err(StorageError::NotFound), None),
            _ => remove_finish(Err(StorageError::Catalog), None),
        },
        RemoveState::DeletingRow { location } => match event {
            RemoveEvent::RowDeleted => {
                let target = location.clone();
                (
                    RemoveState::DeletingObject { location },
                    RemoveAction::DeleteObject { location: target },
                )
            },
            RemoveEvent::RowMissing => remove_finish(Err(StorageError::NotFound), None),
            _ => remove_finish(Err(StorageError::Catalog), None),
        },
        RemoveState::DeletingObject { location } => match event {
            RemoveEvent::ObjectDeleted => remove_finish(Ok(()), None),
            _ => remove_finish(Ok(()), Some(location)),
        },
        RemoveState::Finished => remove_finish(Err(StorageError::Catalog), None),
    }
}

/// An upload ends well only where the catalog has inserted the row for an
/// object that was written: every other event ends it with an error or asks
/// for a further step.
pub proof fn lemma_store_succeeds_only_with_row(state: StoreState, event: StoreEvent)
    requires
        store_transition(state, event).1 matches StoreAction::Finish(outcome) && outcome.result is Ok,
    ensures
        state is Inserting,
        event is RowInserted,
{
}

/// A failed insert is answered by deleting the object that was just written,
/// and the upload then ends with a `Catalog` error. An object that could not
/// be deleted is named in the outcome; none is lost from sight.
pub proof fn lemma_failed_insert_is_compensated(location: String, failure: StoreEvent, answer: StoreEvent)
    requires
        !(failure is RowInserted),
    ensures
        ({
            let (compensating, action) = store_transition(
                StoreState::Inserting { location },
                failure,
            );
            let (finished, last) = store_transition(compensating, answer);
            &&& action == StoreAction::DeleteObject { location }
            &&& finished is Finished
            &&& last matches StoreAction::Finish(outcome)
            &&& outcome.result == Err::<FileRecord, StorageError>(StorageError::Catalog)
            &&& answer is ObjectDeleted ==> outcome.orphan is None
            &&& !(answer is ObjectDeleted) ==> outcome.orphan == Some(location)
        }),
{
}

/// A write that broke off never reaches the catalog: the upload ends with a
/// `Transfer` error, after the partial object, if there is one, was deleted.
pub proof fn lemma_failed_write_inserts_nothing(
    owner_id: Option<String>,
    partial: Option<String>,
    answer: StoreEvent,
)
    ensures
        ({
            let (state, action) = store_transition(
                StoreState::Writing { owner_id },
                StoreEvent::ObjectFailed { partial },
            );
            match partial {
                None => action == StoreAction::Finish(
                    StoreOutcome { result: Err(StorageError::Transfer), orphan: None },
                ),
                Some(location) => {
                    &&& action == StoreAction::DeleteObject { location }
                    &&& store_transition(state, answer).1 matches StoreAction::Finish(outcome)
                    &&& outcome.result == Err::<FileRecord, StorageError>(StorageError::Transfer)
                },
            }
        }),
{
}

/// A download of an unknown identifier ends with `NotFound` at once: the
/// backend is not asked.
pub proof fn lemma_unknown_id_skips_backend(id: i32)
    ensures
        retrieve_transition(RetrieveState::Looking, RetrieveEvent::RowMissing).1
            == RetrieveAction::Finish(Err(StorageError::NotFound)),
{
}

/// A row whose object the backend does not have ends the download with
/// `DanglingRecord`, which is not `NotFound`.
pub proof fn lemma_missing_object_is_dangling_record(record: FileRecord)
    ensures
        ({
            let (opening, action) = retrieve_transition(
                RetrieveState::Looking,
                RetrieveEvent::RowFound(record),
            );
            &&& action == RetrieveAction::OpenObject { location: record.location }
            &&& retrieve_transition(opening, RetrieveEvent::ObjectMissing).1
                == RetrieveAction::Finish(Err(StorageError::DanglingRecord))
        }),
{
}

/// A requester who is not the owner of the file is answered `Forbidden` at
/// once: neither the row nor the object is touched.
pub proof fn lemma_stranger_is_refused(requester: String, record: FileRecord)
    requires
        record@.owner_id != Some(requester@),
    ensures
        remove_transition(RemoveState::Looking { requester }, RemoveEvent::RowFound(record))
            == remove_finished(Err(StorageError::Forbidden), None),
{
}

/// The object is deleted only after the row is: the step that deletes the
/// object is asked for in answer to the deleted row and to nothing else.
pub proof fn lemma_row_goes_first(state: RemoveState, event: RemoveEvent)
    requires
        remove_transition(state, event).1 is DeleteObject,
    ensures
        state is DeletingRow,
        event is RowDeleted,
{
}

/// Once the row is deleted the deletion succeeds, whatever the backend
/// answers; an object that could not be deleted is named in the outcome.
pub proof fn lemma_deleted_row_settles_it(location: String, answer: RemoveEvent)
    ensures
        ({
            let (state, action) = remove_transition(
                RemoveState::DeletingRow { location },
                RemoveEvent::RowDeleted,
            );
            &&& action == RemoveAction::DeleteObject { location }
            &&& remove_transition(state, answer).1 matches RemoveAction::Finish(outcome)
            &&& outcome.result is Ok
            &&& answer is ObjectDeleted ==> outcome.orphan is None
            &&& !(answer is ObjectDeleted) ==> outcome.orphan == Some(location)
        }),
{
}

/// A row that could not be deleted ends the deletion with an error, and the
/// object is left in place.
pub proof fn lemma_failed_row_delete_keeps_object(location: String, failure: RemoveEvent)
    requires
        !(failure is RowDeleted),
    ensures
        remove_transition(RemoveState::DeletingRow { location }, failure).1 matches RemoveAction::Finish(
            outcome,
        ) && outcome.result is Err,
{
}

} // verus!
