//! Backup records as the components report them.

use vstd::prelude::*;

verus! {

/// Identifier of one logical backup: the Unix time, in seconds, at which it
/// was started. All three components file their part under the same number.
pub type BackupId = u64;

/// State of a backup as one component reports it.
#[derive(Clone, Copy, Debug, PartialEq, Eq, Structural, Hash)]
pub enum BackupState {
    Completed,
    Failed,
    InProgress,
    Incomplete,
    DoesNotExist,
}

/// One component's record of a backup. `T` is what the component adds to
/// each part of the backup.
#[derive(Clone, Debug, PartialEq, Eq)]
pub struct BackupDescriptor<T> {
    pub backup_id: u64,
    pub state: BackupState,
    pub details: Vec<T>,
}

/// The workflow engine reports nothing beyond the state.
#[derive(Clone, Debug, PartialEq, Eq)]
pub struct ZeebeDetails {}

/// The query service names the search-engine snapshot behind each part.
#[derive(Clone, Debug, PartialEq, Eq)]
pub struct OperateDetails {
    pub snapshot_name: String,
}

/// Payload of the request that starts a backup.
#[derive(Clone, Debug, PartialEq, Eq)]
pub struct Backup {
    pub backup_id: String,
}

impl<T> BackupDescriptor<T> {
    /// The record reports a finished backup.
    pub open spec fn completed(self) -> bool {
        self.state == BackupState::Completed
    }

    /// Whether the record reports a finished backup.
    pub fn is_completed(&self) -> (r: bool)
        ensures
            r == self.completed(),
    {
        self.state == BackupState::Completed
    }
}

} // verus!
