//! The backup interface that the workflow engine and the query service
//! share: the same four requests, whichever of the two they go to.

use crate::http::{
    bare, bare_request, json_quoted, json_request, lemma_decimal_plain, post_json,
    push_json_string, HttpRequest, HttpRequestView, Method,
};
use crate::text::{decimal, decimal_string, push_decimal};
use crate::types::Backup;
use vstd::prelude::*;

verus! {

/// Path of the backups of a component.
pub open spec fn backups_path() -> Seq<char> {
    "/actuator/backups"@
}

/// Path of the backup `id` of a component.
pub open spec fn backup_path(id: u64) -> Seq<char> {
    "/actuator/backups/"@ + decimal(id as nat)
}

/// The JSON document of a backup request: one member, `backupId`, with the
/// identifier as a string.
pub open spec fn backup_document(backup: Backup) -> Seq<char> {
    "{\"backupId\":"@ + json_quoted(backup.backup_id@) + "}"@
}

/// The JSON document that asks for the backup `id`.
pub open spec fn take_backup_document(id: u64) -> Seq<char> {
    "{\"backupId\":\""@ + decimal(id as nat) + "\"}"@
}

/// The request for the state of the backup `id`.
pub open spec fn query_request(id: u64) -> HttpRequestView {
    bare_request(Method::Get, backup_path(id))
}

/// The request for all backups of a component.
pub open spec fn list_request() -> HttpRequestView {
    bare_request(Method::Get, backups_path())
}

/// The request that starts the backup `id`.
pub open spec fn create_request(id: u64) -> HttpRequestView {
    json_request(backups_path(), take_backup_document(id))
}

/// The request that removes the backup `id`.
pub open spec fn delete_request(id: u64) -> HttpRequestView {
    HttpRequestView {
        method: Method::Delete,
        path: backup_path(id),
        content_type: Some("application/json"@),
        body: None,
    }
}

fn backup_path_string(id: u64) -> (path: String)
    ensures
        path@ == backup_path(id),
{
    let mut path = String::from_str("/actuator/backups/");
    push_decimal(&mut path, id);
    path
}

/// Writes the JSON document of a backup request.
pub fn serialize_backup(backup: &Backup) -> (document: String)
    ensures
        document@ == backup_document(*backup),
{
    let mut document = String::from_str("{\"backupId\":");
    push_json_string(&mut document, backup.backup_id.as_str());
    document.append("}");
    document
}

/// The document of a backup request whose identifier is a number in base
/// ten holds that number between quotes.
pub proof fn lemma_take_backup_document(backup: Backup, id: u64)
    requires
        backup.backup_id@ == decimal(id as nat),
    ensures
        backup_document(backup) == take_backup_document(id),
{
    reveal_strlit("{\"backupId\":");
    reveal_strlit("{\"backupId\":\"");
    reveal_strlit("\"}");
    reveal_strlit("}");
    lemma_decimal_plain(id as nat);
    assert(backup_document(backup) =~= take_backup_document(id));
}

/// Asks for the state of the backup `id`: `GET /actuator/backups/{id}`.
pub fn query(id: u64) -> (request: HttpRequest)
    ensures
        request@ == query_request(id),
{
    bare(Method::Get, backup_path_string(id))
}

/// Asks for all backups: `GET /actuator/backups`.
pub fn list() -> (request: HttpRequest)
    ensures
        request@ == list_request(),
{
    bare(Method::Get, String::from_str("/actuator/backups"))
}

/// Starts the backup `id`: `POST /actuator/backups` with the identifier in
/// a JSON document.
pub fn create(id: u64) -> (request: HttpRequest)
    ensures
        request@ == create_request(id),
{
    let backup = Backup { backup_id: decimal_string(id) };
    let document = serialize_backup(&backup);
    proof {
        lemma_take_backup_document(backup, id);
    }
    post_json(String::from_str("/actuator/backups"), document)
}

/// Removes the backup `id`: `DELETE /actuator/backups/{id}`.
pub fn delete(id: u64) -> (request: HttpRequest)
    ensures
        request@ == delete_request(id),
{
    HttpRequest {
        method: Method::Delete,
        path: backup_path_string(id),
        content_type: Some(String::from_str("application/json")),
        body: None,
    }
}

} // verus!
