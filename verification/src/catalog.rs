use vstd::prelude::*;
use crate::error::StorageError;
use crate::record::FileRecord;
use crate::record::FileRecordView;
use crate::record::NewFileRecord;
use crate::record::row_of;
use crate::text::ascii_rule;
use crate::text::contains_ignoring_case;
use crate::text::matches_ignoring_case;
use crate::text::same_text;

verus! {

/// Rows in strictly rising order of their identifiers.
pub open spec fn ascending(rows: Seq<FileRecordView>) -> bool {
    forall|i: int, j: int| 0 <= i < j < rows.len() ==> rows[i].id < rows[j].id
}

/// Whether some row carries the identifier `id`.
pub open spec fn has_id(rows: Seq<FileRecordView>, id: int) -> bool {
    exists|i: int| 0 <= i < rows.len() && #[trigger] rows[i].id == id
}

/// The row with the identifier `id`, if there is one.
pub open spec fn row_with_id(rows: Seq<FileRecordView>, id: int) -> Option<FileRecordView>
    decreases rows.len(),
{
    if rows.len() == 0 {
        None
    } else if rows.last().id == id {
        Some(rows.last())
    } else {
        row_with_id(rows.drop_last(), id)
    }
}

/// The rows but the one with the identifier `id`.
pub open spec fn without_id(rows: Seq<FileRecordView>, id: int) -> Seq<FileRecordView> {
    rows.filter(|r: FileRecordView| r.id != id)
}

/// The rows whose name holds `query`, letter case set aside.
pub open spec fn named_like(rows: Seq<FileRecordView>, query: Seq<char>) -> Seq<FileRecordView> {
    rows.filter(|r: FileRecordView| matches_ignoring_case(r.name, query))
}

/// The rows that belong to `owner`.
pub open spec fn owned_by(rows: Seq<FileRecordView>, owner: Seq<char>) -> Seq<FileRecordView> {
    rows.filter(|r: FileRecordView| r.owner_id == Some(owner))
}

/// `row_with_id` finds a row exactly when one carries the identifier, and
/// the row it finds carries it.
pub proof fn lemma_row_with_id(rows: Seq<FileRecordView>, id: int)
    ensures
        row_with_id(rows, id) is Some <==> has_id(rows, id),
        row_with_id(rows, id) matches Some(r) ==> r.id == id && rows.contains(r),
    decreases rows.len(),
{
    if rows.len() > 0 && rows.last().id != id {
        let front = rows.drop_last();
        lemma_row_with_id(front, id);
        if has_id(rows, id) {
            let i = choose|i: int| 0 <= i < rows.len() && #[trigger] rows[i].id == id;
            assert(front[i].id == id);
        }
        if has_id(front, id) {
            let i = choose|i: int| 0 <= i < front.len() && #[trigger] front[i].id == id;
            assert(rows[i].id == id);
        }
        if row_with_id(front, id) is Some {
            let r = row_with_id(front, id)->0;
            let k = choose|k: int| 0 <= k < front.len() && front[k] == r;
            assert(rows[k] == r);
        }
    }
}

/// In rows with distinct identifiers, the row at index `i` is the one that
/// `row_with_id` finds for its identifier.
pub proof fn lemma_row_at_index(rows: Seq<FileRecordView>, i: int)
    requires
        ascending(rows),
        0 <= i < rows.len(),
    ensures
        row_with_id(rows, rows[i].id) == Some(rows[i]),
    decreases rows.len(),
{
    if i < rows.len() - 1 {
        lemma_row_at_index(rows.drop_last(), i);
    }
}

/// A filter keeps the rising order of the rows, and every row it lets
/// through is one of the rows.
pub proof fn lemma_filter_keeps_order(rows: Seq<FileRecordView>, keep: spec_fn(FileRecordView) -> bool)
    requires
        ascending(rows),
    ensures
        ascending(rows.filter(keep)),
        forall|i: int|
            0 <= i < rows.filter(keep).len() ==> rows.contains(#[trigger] rows.filter(keep)[i]),
    decreases rows.len(),
{
    reveal(Seq::filter);
    if rows.len() > 0 {
        let front = rows.drop_last();
        let kept = front.filter(keep);
        let out = rows.filter(keep);
        lemma_filter_keeps_order(front, keep);
        assert forall|i: int| 0 <= i < kept.len() implies rows.contains(#[trigger] kept[i]) by {
            let k = choose|k: int| 0 <= k < front.len() && front[k] == kept[i];
            assert(rows[k] == kept[i]);
        }
        if keep(rows.last()) {
            assert forall|i: int, j: int| 0 <= i < j < out.len() implies out[i].id < out[j].id by {
                if j == out.len() - 1 {
                    let k = choose|k: int| 0 <= k < front.len() && front[k] == kept[i];
                    assert(rows[k].id < rows[rows.len() - 1].id);
                }
            }
        }
    }
}

/// Taking one row out of rows with distinct identifiers is the same as
/// keeping every row with another identifier.
pub proof fn lemma_remove_row(rows: Seq<FileRecordView>, i: int)
    requires
        ascending(rows),
        0 <= i < rows.len(),
    ensures
        without_id(rows, rows[i].id) == rows.remove(i),
    decreases rows.len(),
{
    reveal(Seq::filter);
    let front = rows.drop_last();
    if i == rows.len() - 1 {
        lemma_keep_all(front, rows[i].id);
    } else {
        lemma_remove_row(front, i);
    }
}

/// Where no row carries the identifier, leaving it out changes nothing.
pub proof fn lemma_keep_all(rows: Seq<FileRecordView>, id: int)
    requires
        !has_id(rows, id),
    ensures
        without_id(rows, id) == rows,
    decreases rows.len(),
{
    reveal(Seq::filter);
    if rows.len() > 0 {
        let front = rows.drop_last();
        assert forall|k: int| 0 <= k < front.len() implies #[trigger] front[k].id != id by {
            assert(front[k] == rows[k]);
        }
        lemma_keep_all(front, id);
    }
}

/// A search finds exactly the rows whose name holds the query, letter case
/// set aside: every such row is found, and nothing else is.
pub proof fn lemma_search_is_exact(rows: Seq<FileRecordView>, query: Seq<char>, row: FileRecordView)
    ensures
        named_like(rows, query).contains(row) <==> rows.contains(row) && matches_ignoring_case(
            row.name,
            query,
        ),
{
    let keep = |r: FileRecordView| matches_ignoring_case(r.name, query);
    if named_like(rows, query).contains(row) {
        let k = choose|k: int| 0 <= k < rows.filter(keep).len() && rows.filter(keep)[k] == row;
        rows.lemma_filter_pred(keep, k);
        rows.lemma_filter_contains_rev(keep, row);
    }
    if rows.contains(row) && keep(row) {
        let i = choose|i: int| 0 <= i < rows.len() && rows[i] == row;
        rows.lemma_filter_contains(keep, i);
    }
}

/// The rows of `rows` whose name holds `query` as a part, letter case set
/// aside, in the order in which they stand. Letter case is set aside by
/// taking the lowercase form of both texts; the query is matched as it
/// stands, with no character of it read as a wildcard. For a name and a query
/// of ASCII characters this is the match with `A` to `Z` made small.
pub fn select_by_name(rows: &Vec<FileRecord>, query: &str) -> (found: Vec<FileRecord>)
    ensures
        found.deep_view() == named_like(rows.deep_view(), query@),
        forall|j: int|
            0 <= j < rows.deep_view().len() ==> ascii_rule(
                (#[trigger] rows.deep_view()[j]).name,
                query@,
            ),
{
    let ghost all = rows.deep_view();
    let ghost keep = |r: FileRecordView| matches_ignoring_case(r.name, query@);
    let mut found: Vec<FileRecord> = Vec::new();
    let mut i: usize = 0;
    proof {
        reveal(Seq::filter);
    }
    while i < rows.len()
        invariant
            i <= rows.len(),
            all == rows.deep_view(),
            keep == |r: FileRecordView| matches_ignoring_case(r.name, query@),
            found.deep_view() == all.take(i as int).filter(keep),
            forall|j: int| 0 <= j < i ==> ascii_rule((#[trigger] all[j]).name, query@),
        decreases rows.len() - i,
    {
        proof {
            assert(all.take(i + 1) =~= all.take(i as int).push(all[i as int]));
            all.take(i as int).lemma_filter_push(all[i as int], keep);
        }
        if contains_ignoring_case(rows[i].name.as_str(), query) {
            let copy = rows[i].duplicate();
            found.push(copy);
        }
        i += 1;
    }
    proof {
        assert(all.take(all.len() as int) =~= all);
    }
    found
}

/// The rows of `rows` that belong to `owner`, in the order in which they
/// stand.
pub fn select_by_owner(rows: &Vec<FileRecord>, owner: &str) -> (found: Vec<FileRecord>)
    ensures
        found.deep_view() == owned_by(rows.deep_view(), owner@),
{
    let ghost all = rows.deep_view();
    let ghost keep = |r: FileRecordView| r.owner_id == Some(owner@);
    let mut found: Vec<FileRecord> = Vec::new();
    let mut i: usize = 0;
    proof {
        reveal(Seq::filter);
    }
    while i < rows.len()
        invariant
            i <= rows.len(),
            all == rows.deep_view(),
            keep == |r: FileRecordView| r.owner_id == Some(owner@),
            found.deep_view() == all.take(i as int).filter(keep),
        decreases rows.len() - i,
    {
        proof {
            assert(all.take(i + 1) =~= all.take(i as int).push(all[i as int]));
            all.take(i as int).lemma_filter_push(all[i as int], keep);
        }
        let mine = match &rows[i].owner_id {
            Some(o) => same_text(o.as_str(), owner),
            None => false,
        };
        if mine {
            let copy = rows[i].duplicate();
            found.push(copy);
        }
        i += 1;
    }
    proof {
        assert(all.take(all.len() as int) =~= all);
    }
    found
}

/// The metadata catalog: one row per stored file, found by its identifier.
/// The catalog assigns the identifiers, each larger than every one before.
#[derive(Debug)]
pub struct Catalog {
    rows: Vec<FileRecord>,
    next_id: i32,
}

impl View for Catalog {
    type V = Seq<FileRecordView>;

    /// The rows of the catalog, in the order of their identifiers.
    closed spec fn view(&self) -> Seq<FileRecordView> {
        self.rows.deep_view()
    }
}

impl Catalog {
    /// The identifier that the next new row gets.
    pub closed spec fn next_id(&self) -> int {
        self.next_id as int
    }

    /// What holds of every catalog: identifiers rise along the rows, and
    /// every one of them lies below the next identifier to be given.
    pub open spec fn well_formed(&self) -> bool {
        &&& ascending(self@)
        &&& 1 <= self.next_id() <= i32::MAX
        &&& forall|i: int| 0 <= i < self@.len() ==> 1 <= #[trigger] self@[i].id < self.next_id()
    }

    #[verifier::type_invariant]
    spec fn sound(&self) -> bool {
        self.well_formed()
    }

    /// Makes known of a catalog at hand that it is well formed.
    pub fn confirm_well_formed(&self)
        ensures
            self.well_formed(),
    {
        proof {
            use_type_invariant(self);
        }
    }

    /// An empty catalog.
    pub fn new() -> (catalog: Catalog)
        ensures
            catalog.well_formed(),
            catalog@ == Seq::<FileRecordView>::empty(),
            catalog.next_id() == 1,
    {
        let catalog = Catalog { rows: Vec::new(), next_id: 1 };
        catalog
    }

    /// An empty catalog whose identifiers begin at `first_id`, or at 1 where
    /// that is less.
    pub fn starting_at(first_id: i32) -> (catalog: Catalog)
        ensures
            catalog.well_formed(),
            catalog@ == Seq::<FileRecordView>::empty(),
            catalog.next_id() == if first_id < 1 {
                1
            } else {
                first_id as int
            },
    {
        let next_id = if first_id < 1 {
            1
        } else {
            first_id
        };
        let catalog = Catalog { rows: Vec::new(), next_id };
        catalog
    }

    /// The number of rows.
    pub fn len(&self) -> (n: usize)
        ensures
            n == self@.len(),
    {
        self.rows.len()
    }

    /// Inserts a row for `new`, stamped with `created_at`, under a fresh
    /// identifier, and returns the row. Fails with `Catalog`, changing
    /// nothing, once the identifiers are used up.
    pub fn create(&mut self, new: NewFileRecord, created_at: i64) -> (result: Result<
        FileRecord,
        StorageError,
    >)
        ensures
            old(self).well_formed(),
            final(self).well_formed(),
            old(self).next_id() < i32::MAX ==> result is Ok,
            old(self).next_id() == i32::MAX ==> result == Err::<FileRecord, StorageError>(
                StorageError::Catalog,
            ),
            result matches Ok(record) ==> {
                &&& record@ == row_of(new, old(self).next_id(), created_at as int)
                &&& record.location == new.location
                &&& final(self)@ == old(self)@.push(record@)
                &&& final(self).next_id() == old(self).next_id() + 1
            },
            result is Err ==> final(self)@ == old(self)@ && final(self).next_id() == old(
                self,
            ).next_id(),
    {
        proof {
            use_type_invariant(&*self);
        }
        if self.next_id == i32::MAX {
            return Err(StorageError::Catalog);
        }
        let id = self.next_id;
        let record = new.into_record(id, created_at);
        let copy = record.duplicate();
        let ghost before = self@;
        let mut rows: Vec<FileRecord> = Vec::new();
        std::mem::swap(&mut rows, &mut self.rows);
        rows.push(record);
        proof {
            assert(rows.deep_view() =~= before.push(copy@));
        }
        self.next_id = id + 1;
        self.rows = rows;
        Ok(copy)
    }

    /// The index of the row with the identifier `id`.
    fn position(&self, id: i32) -> (found: Option<usize>)
        ensures
            found matches Some(i) ==> i < self@.len() && self@[i as int].id == id,
            found is None ==> !has_id(self@, id as int),
    {
        let mut i: usize = 0;
        while i < self.rows.len()
            invariant
                i <= self.rows.len(),
                forall|k: int| 0 <= k < i ==> self@[k].id != id,
            decreases self.rows.len() - i,
        {
            if self.rows[i].id == id {
                return Some(i);
            }
            i += 1;
        }
        None
    }

    /// The row with the identifier `id`, or `NotFound`.
    pub fn find_by_id(&self, id: i32) -> (result: Result<FileRecord, StorageError>)
        ensures
            result is Ok <==> has_id(self@, id as int),
            match result {
                Ok(record) => row_with_id(self@, id as int) == Some(record@),
                Err(e) => e == StorageError::NotFound && row_with_id(self@, id as int) is None,
            },
    {
        proof {
            use_type_invariant(self);
        }
        match self.position(id) {
            Some(i) => {
                proof {
                    lemma_row_at_index(self@, i as int);
                }
                Ok(self.rows[i].duplicate())
            },
            None => {
                proof {
                    lemma_row_with_id(self@, id as int);
                }
                Err(StorageError::NotFound)
            },
        }
    }

    /// Removes the row with the identifier `id`. Where there is none, the
    /// catalog stays as it is and the answer is `NotFound`.
    pub fn delete(&mut self, id: i32) -> (result: Result<(), StorageError>)
        ensures
            old(self).well_formed(),
            final(self).well_formed(),
            final(self).next_id() == old(self).next_id(),
            final(self)@ == without_id(old(self)@, id as int),
            match result {
                Ok(_) => has_id(old(self)@, id as int),
                Err(e) => e == StorageError::NotFound && !has_id(old(self)@, id as int)
                    && final(self)@ == old(self)@,
            },
    {
        proof {
            use_type_invariant(&*self);
        }
        match self.position(id) {
            Some(i) => {
                let ghost before = self@;
                proof {
                    lemma_remove_row(before, i as int);
                }
                let mut rows: Vec<FileRecord> = Vec::new();
                std::mem::swap(&mut rows, &mut self.rows);
                rows.remove(i);
                proof {
                    assert(rows.deep_view() =~= before.remove(i as int));
                }
                self.rows = rows;
                Ok(())
            },
            None => {
                proof {
                    lemma_keep_all(self@, id as int);
                }
                Err(StorageError::NotFound)
            },
        }
    }

    /// Every row, in the order of the identifiers.
    pub fn list_all(&self) -> (found: Vec<FileRecord>)
        ensures
            found.deep_view() == self@,
    {
        let mut found: Vec<FileRecord> = Vec::new();
        let mut i: usize = 0;
        while i < self.rows.len()
            invariant
                i <= self.rows.len(),
                found.deep_view() == self@.take(i as int),
            decreases self.rows.len() - i,
        {
            let copy = self.rows[i].duplicate();
            found.push(copy);
            proof {
                assert(self@.take(i + 1) =~= self@.take(i as int).push(self@[i as int]));
            }
            i += 1;
        }
        found
    }

    /// The rows whose name holds `query` as a part, letter case set aside,
    /// in the order of the identifiers. Letter case is set aside by taking
    /// the lowercase form of both texts; the query is matched as it stands,
    /// with no character of it read as a wildcard. For a name and a query of
    /// ASCII characters this is the match with `A` to `Z` made small.
    pub fn search_by_name(&self, query: &str) -> (found: Vec<FileRecord>)
        ensures
            found.deep_view() == named_like(self@, query@),
            ascending(found.deep_view()),
            forall|j: int| 0 <= j < self@.len() ==> ascii_rule((#[trigger] self@[j]).name, query@),
    {
        proof {
            use_type_invariant(self);
            lemma_filter_keeps_order(
                self@,
                |r: FileRecordView| matches_ignoring_case(r.name, query@),
            );
        }
        select_by_name(&self.rows, query)
    }

    /// The rows that belong to `owner`, in the order of the identifiers.
    pub fn find_by_owner(&self, owner: &str) -> (found: Vec<FileRecord>)
        ensures
            found.deep_view() == owned_by(self@, owner@),
            ascending(found.deep_view()),
    {
        proof {
            use_type_invariant(self);
            lemma_filter_keeps_order(self@, |r: FileRecordView| r.owner_id == Some(owner@));
        }
        select_by_owner(&self.rows, owner)
    }
}

} // verus!
