use vstd::prelude::*;
use crate::record::FileRecord;
use crate::record::FileRecordView;
use crate::text::same_text;

verus! {

/// What a requester wants to do with a file.
#[derive(Clone, Copy, Debug, PartialEq, Eq, Structural)]
pub enum Action {
    Read,
    Delete,
}

/// The access rule: reading is open to everyone, deleting is for the owner.
/// A record without an owner can be deleted by nobody.
pub open spec fn may_access(record: FileRecordView, requester: Seq<char>, action: Action) -> bool {
    match action {
        Action::Read => true,
        Action::Delete => record.owner_id == Some(requester),
    }
}

/// Decides whether `requester` may perform `action` on `record`.
pub fn can_access(record: &FileRecord, requester: &str, action: Action) -> (allowed: bool)
    ensures
        allowed == may_access(record@, requester@, action),
{
    match action {
        Action::Read => true,
        Action::Delete => match &record.owner_id {
            Some(owner) => same_text(owner.as_str(), requester),
            None => false,
        },
    }
}

} // verus!
