use vstd::prelude::*;
use vstd::string::*;
use crate::catalog::ascending;
use crate::catalog::lemma_remove_row;
use crate::catalog::lemma_row_with_id;
use crate::catalog::row_with_id;
use crate::catalog::without_id;
use crate::catalog::has_id;
use crate::catalog::Catalog;
use crate::coordinator::remove_begin;
use crate::coordinator::remove_step;
use crate::coordinator::retrieve_begin;
use crate::coordinator::retrieve_step;
use crate::coordinator::store_begin;
use crate::coordinator::store_step;
use crate::coordinator::RemoveAction;
use crate::coordinator::RemoveEvent;
use crate::coordinator::RemoveOutcome;
use crate::coordinator::RetrieveAction;
use crate::coordinator::RetrieveEvent;
use crate::coordinator::StoreAction;
use crate::coordinator::StoreEvent;
use crate::coordinator::StoreOutcome;
use crate::error::StorageError;
use crate::memory::MemoryStorage;
use crate::memory::MEMORY_NAMESPACE;
use crate::naming::is_extension;
use crate::naming::is_object_id;
use crate::policy::may_access;
use crate::policy::Action;
use crate::record::FileRecord;
use crate::record::FileRecordView;
use crate::storage::begin_upload;
use crate::storage::hint_view;
use crate::storage::is_plan_for;
use crate::storage::UploadPlan;
use crate::transfer::ObjectReader;
use crate::timestamp::clock_micros;

verus! {

/// What a vault holds, as plain mathematical values: the rows of its
/// catalog, the content of its backend, and the identifier the next row gets.
pub struct VaultView {
    pub rows: Seq<FileRecordView>,
    pub objects: Map<Seq<char>, Seq<u8>>,
    pub next_id: int,
    pub object_limit: nat,
}

impl VaultView {
    /// Identifiers rise along the rows and lie below the next one to be given.
    pub open spec fn valid(self) -> bool {
        &&& ascending(self.rows)
        &&& 1 <= self.next_id <= i32::MAX
        &&& forall|i: int| 0 <= i < self.rows.len() ==> 1 <= #[trigger] self.rows[i].id < self.next_id
    }
}

/// The row that an upload of `payload` planned as `plan` gets.
pub open spec fn stored_row(
    plan: UploadPlan,
    payload: Seq<u8>,
    owner_id: Option<Seq<char>>,
    id: int,
    created_at: int,
) -> FileRecordView {
    FileRecordView {
        id,
        name: plan.file_name@,
        location: plan.location@,
        size: payload.len() as int,
        mime_type: plan.mime_type.deep_view(),
        owner_id,
        created_at,
        etag: None,
    }
}

/// What an upload does to a vault and what it answers. The object is written
/// first, at an address that must be free, and the row second. Where the row
/// cannot be inserted the object is deleted again, so a failed upload leaves
/// the vault as it was.
pub open spec fn store_result(
    pre: VaultView,
    payload: Seq<u8>,
    plan: UploadPlan,
    owner_id: Option<Seq<char>>,
    created_at: int,
) -> (VaultView, Result<FileRecordView, StorageError>) {
    if payload.len() > pre.object_limit || pre.objects.contains_key(plan.location@) {
        (pre, Err(StorageError::Transfer))
    } else if pre.next_id >= i32::MAX {
        (pre, Err(StorageError::Catalog))
    } else {
        let row = stored_row(plan, payload, owner_id, pre.next_id, created_at);
        (
            VaultView {
                rows: pre.rows.push(row),
                objects: pre.objects.insert(plan.location@, payload),
                next_id: pre.next_id + 1,
                object_limit: pre.object_limit,
            },
            Ok(row),
        )
    }
}

/// What a download answers: the content and the row, `NotFound` for an
/// unknown identifier, `DanglingRecord` for a row whose object is missing.
pub open spec fn retrieve_result(v: VaultView, id: int) -> Result<
    (Seq<u8>, FileRecordView),
    StorageError,
> {
    match row_with_id(v.rows, id) {
        None => Err(StorageError::NotFound),
        Some(row) => if v.objects.contains_key(row.location) {
            Ok((v.objects[row.location], row))
        } else {
            Err(StorageError::DanglingRecord)
        },
    }
}

/// What a deletion does to a vault and what it answers: `NotFound` for an
/// unknown identifier, `Forbidden` for a requester who is not the owner, and
/// else the row and the object are both gone.
pub open spec fn remove_result(v: VaultView, id: int, requester: Seq<char>) -> (
    VaultView,
    Result<(), StorageError>,
) {
    match row_with_id(v.rows, id) {
        None => (v, Err(StorageError::NotFound)),
        Some(row) => if may_access(row, requester, Action::Delete) {
            (
                VaultView {
                    rows: without_id(v.rows, id),
                    objects: v.objects.remove(row.location),
                    next_id: v.next_id,
                    object_limit: v.object_limit,
                },
                Ok(()),
            )
        } else {
            (v, Err(StorageError::Forbidden))
        },
    }
}

/// The view of an upload's answer.
pub open spec fn stored_view(result: Result<FileRecord, StorageError>) -> Result<
    FileRecordView,
    StorageError,
> {
    match result {
        Ok(record) => Ok(record@),
        Err(e) => Err(e),
    }
}

/// The view of a download's answer.
pub open spec fn retrieved_view(result: Result<(ObjectReader, FileRecord), StorageError>) -> Result<
    (Seq<u8>, FileRecordView),
    StorageError,
> {
    match result {
        Ok((reader, record)) => Ok((reader.content(), record@)),
        Err(e) => Err(e),
    }
}

/// A complete file store in memory: a catalog and a backend, kept together
/// by the coordinator's protocols.
#[derive(Debug)]
pub struct Vault {
    catalog: Catalog,
    backend: MemoryStorage,
}

impl View for Vault {
    type V = VaultView;

    closed spec fn view(&self) -> VaultView {
        VaultView {
            rows: self.catalog@,
            objects: self.backend@,
            next_id: self.catalog.next_id(),
            object_limit: self.backend.object_limit(),
        }
    }
}

impl Vault {
    /// A vault over a given catalog and backend.
    pub fn from_parts(catalog: Catalog, backend: MemoryStorage) -> (vault: Vault)
        ensures
            vault@.valid(),
            vault@.rows == catalog@,
            vault@.objects == backend@,
            vault@.next_id == catalog.next_id(),
            vault@.object_limit == backend.object_limit(),
    {
        catalog.confirm_well_formed();
        Vault { catalog, backend }
    }

    /// An empty vault whose backend stores objects of at most `object_limit`
    /// bytes.
    pub fn new(object_limit: usize) -> (vault: Vault)
        ensures
            vault@.valid(),
            vault@.rows == Seq::<FileRecordView>::empty(),
            vault@.objects == Map::<Seq<char>, Seq<u8>>::empty(),
            vault@.next_id == 1,
            vault@.object_limit == crate::transfer::effective_limit(object_limit as nat),
    {
        Vault { catalog: Catalog::new(), backend: MemoryStorage::new(object_limit) }
    }

    /// Takes the vault apart.
    pub fn into_parts(self) -> (parts: (Catalog, MemoryStorage))
        ensures
            self@.valid(),
            parts.0.well_formed(),
            parts.0@ == self@.rows,
            parts.0.next_id() == self@.next_id,
            parts.1@ == self@.objects,
            parts.1.object_limit() == self@.object_limit,
    {
        self.catalog.confirm_well_formed();
        (self.catalog, self.backend)
    }

    /// The catalog, for queries.
    pub fn catalog(&self) -> (catalog: &Catalog)
        ensures
            self@.valid(),
            catalog.well_formed(),
            catalog@ == self@.rows,
            catalog.next_id() == self@.next_id,
    {
        self.catalog.confirm_well_formed();
        &self.catalog
    }

    /// Stores `payload` as planned in `plan`, for `owner_id`, with a row
    /// stamped `created_at`.
    pub fn store_as(
        &mut self,
        payload: &[u8],
        plan: UploadPlan,
        owner_id: Option<String>,
        created_at: i64,
    ) -> (outcome: StoreOutcome)
        ensures
            old(self)@.valid(),
            final(self)@.valid(),
            (final(self)@, stored_view(outcome.result)) == store_result(
                old(self)@,
                payload@,
                plan,
                owner_id.deep_view(),
                created_at as int,
            ),
            outcome.orphan is None,
    {
        self.catalog.confirm_well_formed();
        let ghost pre = self@;
        let (state, _action) = store_begin(None, None, owner_id);
        let target = plan.location.clone();
        let event = match self.backend.store_at(target, payload) {
            Ok(written) => StoreEvent::ObjectStored(plan.finish(written)),
            Err(_) => StoreEvent::ObjectFailed { partial: None },
        };
        let (state, action) = store_step(state, event);
        match action {
            StoreAction::InsertRow(row) => {
                let event = match self.catalog.create(row, created_at) {
                    Ok(record) => StoreEvent::RowInserted(record),
                    Err(_) => StoreEvent::RowFailed,
                };
                let (state, action) = store_step(state, event);
                match action {
                    StoreAction::DeleteObject { location } => {
                        let event = match self.backend.delete(location.as_str()) {
                            Ok(_) => StoreEvent::ObjectDeleted,
                            Err(_) => StoreEvent::ObjectDeleteFailed,
                        };
                        proof {
                            assert(self@.objects =~= pre.objects);
                        }
                        let (_state, action) = store_step(state, event);
                        match action {
                            StoreAction::Finish(outcome) => outcome,
                            _ => StoreOutcome { result: Err(StorageError::Catalog), orphan: None },
                        }
                    },
                    StoreAction::Finish(outcome) => outcome,
                    _ => StoreOutcome { result: Err(StorageError::Catalog), orphan: None },
                }
            },
            StoreAction::Finish(outcome) => outcome,
            _ => StoreOutcome { result: Err(StorageError::Transfer), orphan: None },
        }
    }

    /// Stores `payload` under a fresh random address, with a row stamped with
    /// the current time. The name hint gives the row its name and the address
    /// its extension; the content type hint, where given, is the media type.
    pub fn store(
        &mut self,
        payload: &[u8],
        name_hint: Option<&str>,
        content_type: Option<&str>,
        owner_id: Option<&str>,
    ) -> (outcome: StoreOutcome)
        ensures
            old(self)@.valid(),
            final(self)@.valid(),
            outcome.orphan is None,
            payload@.len() > old(self)@.object_limit ==> outcome.result == Err::<
                FileRecord,
                StorageError,
            >(StorageError::Transfer),
            exists|plan: UploadPlan, created_at: int|
                {
                    &&& is_object_id(plan.object_id@)
                    &&& plan.extension matches Some(e) ==> is_extension(e@)
                    &&& is_plan_for(
                        plan,
                        MEMORY_NAMESPACE@,
                        hint_view(name_hint),
                        hint_view(content_type),
                        plan.object_id@,
                        plan.extension.deep_view(),
                    )
                    &&& (final(self)@, stored_view(outcome.result)) == #[trigger] store_result(
                        old(self)@,
                        payload@,
                        plan,
                        hint_view(owner_id),
                        created_at,
                    )
                },
    {
        let plan = begin_upload(MEMORY_NAMESPACE, name_hint, content_type);
        let created_at = clock_micros();
        let owner = match owner_id {
            Some(o) => Some(String::from_str(o)),
            None => None,
        };
        let ghost witness = plan;
        let ghost pre = self@;
        let outcome = self.store_as(payload, plan, owner, created_at);
        proof {
            assert((self@, stored_view(outcome.result)) == store_result(
                pre,
                payload@,
                witness,
                hint_view(owner_id),
                created_at as int,
            ));
        }
        outcome
    }

    /// Opens the file `id`: a reader at the start of its content, and its
    /// row.
    pub fn retrieve(&self, id: i32) -> (result: Result<(ObjectReader, FileRecord), StorageError>)
        ensures
            self@.valid(),
            retrieved_view(result) == retrieve_result(self@, id as int),
            result matches Ok((reader, _)) ==> reader.position() == 0,
    {
        self.catalog.confirm_well_formed();
        let (state, _action) = retrieve_begin(id);
        let event = match self.catalog.find_by_id(id) {
            Ok(record) => RetrieveEvent::RowFound(record),
            Err(_) => RetrieveEvent::RowMissing,
        };
        let (state, action) = retrieve_step(state, event);
        match action {
            RetrieveAction::OpenObject { location } => {
                match self.backend.open(location.as_str()) {
                    Ok(reader) => {
                        let (_state, action) = retrieve_step(state, RetrieveEvent::ObjectOpened);
                        match action {
                            RetrieveAction::Finish(Ok(record)) => Ok((reader, record)),
                            RetrieveAction::Finish(Err(e)) => Err(e),
                            _ => Err(StorageError::Transfer),
                        }
                    },
                    Err(_) => {
                        let (_state, action) = retrieve_step(state, RetrieveEvent::ObjectMissing);
                        match action {
                            RetrieveAction::Finish(Err(e)) => Err(e),
                            _ => Err(StorageError::DanglingRecord),
                        }
                    },
                }
            },
            RetrieveAction::Finish(Err(e)) => Err(e),
            _ => Err(StorageError::NotFound),
        }
    }

    /// Deletes the file `id` for `requester`: the row first, the object
    /// second.
    pub fn remove(&mut self, id: i32, requester: &str) -> (outcome: RemoveOutcome)
        ensures
            old(self)@.valid(),
            final(self)@.valid(),
            (final(self)@, outcome.result) == remove_result(old(self)@, id as int, requester@),
            outcome.orphan is None,
    {
        self.catalog.confirm_well_formed();
        let ghost pre = self@;
        let (state, _action) = remove_begin(id, String::from_str(requester));
        let event = match self.catalog.find_by_id(id) {
            Ok(record) => RemoveEvent::RowFound(record),
            Err(_) => RemoveEvent::RowMissing,
        };
        proof {
            lemma_row_with_id(pre.rows, id as int);
        }
        let (state, action) = remove_step(state, event);
        match action {
            RemoveAction::DeleteRow { id: row_id } => {
                let event = match self.catalog.delete(row_id) {
                    Ok(_) => RemoveEvent::RowDeleted,
                    Err(_) => RemoveEvent::RowMissing,
                };
                let (state, action) = remove_step(state, event);
                match action {
                    RemoveAction::DeleteObject { location } => {
                        let event = match self.backend.delete(location.as_str()) {
                            Ok(_) => RemoveEvent::ObjectDeleted,
                            Err(_) => RemoveEvent::ObjectDeleteFailed,
                        };
                        let (_state, action) = remove_step(state, event);
                        match action {
                            RemoveAction::Finish(outcome) => outcome,
                            _ => RemoveOutcome { result: Ok(()), orphan: None },
                        }
                    },
                    RemoveAction::Finish(outcome) => outcome,
                    _ => RemoveOutcome { result: Err(StorageError::Catalog), orphan: None },
                }
            },
            RemoveAction::Finish(outcome) => outcome,
            _ => RemoveOutcome { result: Err(StorageError::Catalog), orphan: None },
        }
    }
}

/// Every row has its object, every object its row, and no two rows share an
/// object: the catalog and the backend agree.
pub open spec fn consistent(v: VaultView) -> bool {
    &&& forall|i: int| 0 <= i < v.rows.len() ==> v.objects.contains_key(#[trigger] v.rows[i].location)
    &&& forall|location: Seq<char>| #[trigger]
        v.objects.contains_key(location) ==> exists|i: int|
            0 <= i < v.rows.len() && #[trigger] v.rows[i].location == location
    &&& forall|i: int, j: int|
        0 <= i < j < v.rows.len() ==> #[trigger] v.rows[i].location != #[trigger] v.rows[j].location
}

/// What was stored comes back: after an upload that succeeded, a download by
/// the identifier of the new row hands out the payload byte for byte together
/// with that row, and the size in the row is the length of the payload.
pub proof fn lemma_round_trip(
    pre: VaultView,
    payload: Seq<u8>,
    plan: UploadPlan,
    owner_id: Option<Seq<char>>,
    created_at: int,
)
    requires
        pre.valid(),
        store_result(pre, payload, plan, owner_id, created_at).1 is Ok,
    ensures
        ({
            let (post, answer) = store_result(pre, payload, plan, owner_id, created_at);
            let row = answer->Ok_0;
            &&& retrieve_result(post, row.id) == Ok::<(Seq<u8>, FileRecordView), StorageError>(
                (payload, row),
            )
            &&& row.size == payload.len()
        }),
{
    let post = store_result(pre, payload, plan, owner_id, created_at).0;
    assert(post.rows.last().id == pre.next_id);
}

/// Two uploads that both succeeded never share an address or an identifier,
/// whatever their plans say: an address that is taken fails the later one.
pub proof fn lemma_uploads_never_collide(
    pre: VaultView,
    payload_a: Seq<u8>,
    plan_a: UploadPlan,
    owner_a: Option<Seq<char>>,
    created_a: int,
    payload_b: Seq<u8>,
    plan_b: UploadPlan,
    owner_b: Option<Seq<char>>,
    created_b: int,
)
    requires
        store_result(pre, payload_a, plan_a, owner_a, created_a).1 is Ok,
        store_result(
            store_result(pre, payload_a, plan_a, owner_a, created_a).0,
            payload_b,
            plan_b,
            owner_b,
            created_b,
        ).1 is Ok,
    ensures
        ({
            let (between, first) = store_result(pre, payload_a, plan_a, owner_a, created_a);
            let second = store_result(between, payload_b, plan_b, owner_b, created_b).1;
            &&& first->Ok_0.location != second->Ok_0.location
            &&& first->Ok_0.id != second->Ok_0.id
        }),
{
}

/// An upload that failed leaves the vault as it was: no object without a row
/// stays behind.
pub proof fn lemma_failed_store_leaves_nothing(
    pre: VaultView,
    payload: Seq<u8>,
    plan: UploadPlan,
    owner_id: Option<Seq<char>>,
    created_at: int,
)
    requires
        store_result(pre, payload, plan, owner_id, created_at).1 is Err,
    ensures
        store_result(pre, payload, plan, owner_id, created_at).0 == pre,
{
}

/// A requester who is not the owner of a file is answered `Forbidden`, and
/// the vault stays as it was.
pub proof fn lemma_stranger_cannot_remove(v: VaultView, id: int, requester: Seq<char>)
    requires
        row_with_id(v.rows, id) matches Some(row) && row.owner_id != Some(requester),
    ensures
        remove_result(v, id, requester) == (v, Err::<(), StorageError>(StorageError::Forbidden)),
{
}

/// A row whose object is gone from the backend is reported as a dangling
/// record, not as a file that is not found.
pub proof fn lemma_missing_object_is_dangling(v: VaultView, id: int)
    requires
        row_with_id(v.rows, id) matches Some(row) && !v.objects.contains_key(row.location),
    ensures
        retrieve_result(v, id) == Err::<(Seq<u8>, FileRecordView), StorageError>(
            StorageError::DanglingRecord,
        ),
{
}

/// A file that was deleted is not found again: neither by a download nor by
/// a second deletion.
pub proof fn lemma_removed_is_gone(v: VaultView, id: int, requester: Seq<char>, other: Seq<char>)
    requires
        remove_result(v, id, requester).1 is Ok,
    ensures
        ({
            let post = remove_result(v, id, requester).0;
            &&& retrieve_result(post, id) == Err::<(Seq<u8>, FileRecordView), StorageError>(
                StorageError::NotFound,
            )
            &&& remove_result(post, id, other) == (
                post,
                Err::<(), StorageError>(StorageError::NotFound),
            )
        }),
{
    let post = remove_result(v, id, requester).0;
    lemma_row_with_id(post.rows, id);
    if has_id(post.rows, id) {
        let i = choose|i: int| 0 <= i < post.rows.len() && #[trigger] post.rows[i].id == id;
        v.rows.lemma_filter_pred(|r: FileRecordView| r.id != id, i);
    }
}

/// An upload keeps the catalog and the backend in agreement.
pub proof fn lemma_store_keeps_consistency(
    pre: VaultView,
    payload: Seq<u8>,
    plan: UploadPlan,
    owner_id: Option<Seq<char>>,
    created_at: int,
)
    requires
        pre.valid(),
        consistent(pre),
    ensures
        store_result(pre, payload, plan, owner_id, created_at).0.valid(),
        consistent(store_result(pre, payload, plan, owner_id, created_at).0),
{
    let (post, answer) = store_result(pre, payload, plan, owner_id, created_at);
    if answer is Ok {
        assert forall|location: Seq<char>| #[trigger]
            post.objects.contains_key(location) implies exists|i: int|
            0 <= i < post.rows.len() && #[trigger] post.rows[i].location == location by {
            if location == plan.location@ {
                assert(post.rows[post.rows.len() - 1].location == location);
            } else {
                let i = choose|i: int|
                    0 <= i < pre.rows.len() && #[trigger] pre.rows[i].location == location;
                assert(post.rows[i].location == location);
            }
        }
    }
}

/// A deletion keeps the catalog and the backend in agreement.
pub proof fn lemma_remove_keeps_consistency(v: VaultView, id: int, requester: Seq<char>)
    requires
        v.valid(),
        consistent(v),
    ensures
        remove_result(v, id, requester).0.valid(),
        consistent(remove_result(v, id, requester).0),
{
    let (post, answer) = remove_result(v, id, requester);
    if answer is Ok {
        let row = row_with_id(v.rows, id)->0;
        lemma_row_with_id(v.rows, id);
        let at = choose|k: int| 0 <= k < v.rows.len() && v.rows[k] == row;
        lemma_remove_row(v.rows, at);
        assert forall|location: Seq<char>| #[trigger]
            post.objects.contains_key(location) implies exists|i: int|
            0 <= i < post.rows.len() && #[trigger] post.rows[i].location == location by {
            let k = choose|k: int| 0 <= k < v.rows.len() && #[trigger] v.rows[k].location == location;
            let i = if k < at {
                k
            } else {
                k - 1
            };
            assert(post.rows[i].location == location);
        }
    }
}

} // verus!
