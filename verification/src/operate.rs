//! Requests to the query service.

use crate::common::{make_operate_request, operate_request, ComponentRequest};
use crate::components::{create, create_request, list, list_request, query, query_request};
use vstd::prelude::*;

verus! {

/// Asks the query service for all its backups.
pub fn list_backups() -> (request: ComponentRequest)
    ensures
        request@ == operate_request(list_request()),
{
    make_operate_request(list())
}

/// Asks the query service for the state of the backup `backup_id`.
pub fn query_backup(backup_id: u64) -> (request: ComponentRequest)
    ensures
        request@ == operate_request(query_request(backup_id)),
{
    make_operate_request(query(backup_id))
}

/// Starts the query service's part of the backup `backup_id`.
pub fn take_backup(backup_id: u64) -> (request: ComponentRequest)
    ensures
        request@ == operate_request(create_request(backup_id)),
{
    make_operate_request(create(backup_id))
}

} // verus!
