use vstd::prelude::*;

verus! {

/// The kinds of failure that the storage layer reports to its caller.
#[derive(Clone, Copy, Debug, PartialEq, Eq, Structural)]
pub enum StorageError {
    /// I/O failed while the payload was being read or written.
    Transfer,
    /// The metadata store is unavailable or refused the row.
    Catalog,
    /// No file with the requested id is known to the catalog.
    NotFound,
    /// The catalog holds a row whose backend object is missing.
    DanglingRecord,
    /// A backend object survives without a catalog row.
    OrphanedObject,
    /// The requester does not own the file.
    Forbidden,
    /// The backend refused an operation on an object that exists.
    Backend,
}

impl StorageError {
    /// A short, stable label for logs and for the boundary layer.
    pub fn label(&self) -> (text: &'static str)
        ensures
            text@ == Self::label_of(*self),
    {
        match self {
            StorageError::Transfer => "transfer error",
            StorageError::Catalog => "catalog error",
            StorageError::NotFound => "not found",
            StorageError::DanglingRecord => "dangling record",
            StorageError::OrphanedObject => "orphaned object",
            StorageError::Forbidden => "forbidden",
            StorageError::Backend => "backend error",
        }
    }

    /// The label of each kind of failure.
    pub open spec fn label_of(e: StorageError) -> Seq<char> {
        match e {
            StorageError::Transfer => "transfer error"@,
            StorageError::Catalog => "catalog error"@,
            StorageError::NotFound => "not found"@,
            StorageError::DanglingRecord => "dangling record"@,
            StorageError::OrphanedObject => "orphaned object"@,
            StorageError::Forbidden => "forbidden"@,
            StorageError::Backend => "backend error"@,
        }
    }
}

} // verus!
