//! Requests to the workflow engine.

use crate::common::{make_zeebe_request, zeebe_request, ComponentRequest};
use crate::components::{create, create_request, list, list_request, query, query_request};
use crate::http::{bare, bare_request, Method};
use vstd::prelude::*;

verus! {

/// Starts the workflow engine's part of the backup `backup_id`.
pub fn take_backup(backup_id: u64) -> (request: ComponentRequest)
    ensures
        request@ == zeebe_request(create_request(backup_id)),
{
    make_zeebe_request(create(backup_id))
}

/// Asks the workflow engine for the state of the backup `backup_id`.
pub fn query_backup(backup_id: u64) -> (request: ComponentRequest)
    ensures
        request@ == zeebe_request(query_request(backup_id)),
{
    make_zeebe_request(query(backup_id))
}

/// Asks the workflow engine for all its backups.
pub fn list_backups() -> (request: ComponentRequest)
    ensures
        request@ == zeebe_request(list_request()),
{
    make_zeebe_request(list())
}

/// Halts the export of records to the search engine.
pub fn pause_exporting() -> (request: ComponentRequest)
    ensures
        request@ == zeebe_request(bare_request(Method::Post, "/actuator/exporting/pause"@)),
{
    make_zeebe_request(bare(Method::Post, String::from_str("/actuator/exporting/pause")))
}

/// Takes the export of records up again.
pub fn resume_exporting() -> (request: ComponentRequest)
    ensures
        request@ == zeebe_request(bare_request(Method::Post, "/actuator/exporting/resume"@)),
{
    make_zeebe_request(bare(Method::Post, String::from_str("/actuator/exporting/resume")))
}

} // verus!
