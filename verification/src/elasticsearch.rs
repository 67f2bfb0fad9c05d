//! Requests to the search engine: its indices and its snapshots.

use crate::common::{
    elasticsearch_request, make_elasticsearch_request, ComponentRequest, ComponentRequestView,
};
use crate::http::{
    bare, bare_request, json_quoted, json_request, post_json, push_json_string, uri_accepts,
    validated, Method, RequestError,
};
use crate::text::{decimal, push_decimal, strings_view};
use vstd::prelude::*;

verus! {

/// What a snapshot is to hold.
#[derive(Clone, Debug, PartialEq, Eq)]
pub struct SnapshotRequest {
    /// Pattern of the indices to include.
    pub indices: String,
    /// The feature states to include; `none` for none of them.
    pub feature_states: Vec<String>,
}

pub struct SnapshotRequestView {
    pub indices: Seq<char>,
    pub feature_states: Seq<Seq<char>>,
}

impl View for SnapshotRequest {
    type V = SnapshotRequestView;

    open spec fn view(&self) -> SnapshotRequestView {
        SnapshotRequestView {
            indices: self.indices@,
            feature_states: strings_view(self.feature_states@),
        }
    }
}

/// Settings of a snapshot repository, as far as they matter here.
#[derive(Clone, Debug, PartialEq, Eq)]
pub struct SnapshotRepository {
    /// The repository's storage backend.
    pub kind: String,
}

/// A snapshot repository as the search engine lists it.
#[derive(Clone, Debug, PartialEq, Eq)]
pub struct NamedRepository {
    pub name: String,
    pub settings: SnapshotRepository,
}

/// Why a snapshot request could not be made.
#[derive(Clone, Copy, Debug, PartialEq, Eq, Structural, Hash)]
pub enum SnapshotError {
    /// No repository with a cloud storage backend is configured.
    NoRepository,
    /// The names of repository and snapshot do not give a valid target.
    InvalidTarget,
}

/// The storage backends that snapshots are kept on.
pub open spec fn is_cloud_storage(kind: Seq<char>) -> bool {
    kind == "gcs"@ || kind == "s3"@
}

/// Position of the first repository with a cloud storage backend, or the
/// length of the listing where there is none.
pub open spec fn first_cloud_repository(repositories: Seq<NamedRepository>) -> int
    decreases repositories.len(),
{
    if repositories.len() == 0 {
        0
    } else if is_cloud_storage(repositories[0].settings.kind@) {
        0
    } else {
        1 + first_cloud_repository(repositories.drop_first())
    }
}

/// The name of the repository that snapshots go to: the first of the
/// listing with a cloud storage backend.
pub open spec fn snapshot_repository(repositories: Seq<NamedRepository>) -> Option<Seq<char>> {
    let at = first_cloud_repository(repositories);
    if at < repositories.len() {
        Some(repositories[at].name@)
    } else {
        None
    }
}

/// What `first_cloud_repository` finds: a repository with a cloud storage
/// backend that has none before it.
pub proof fn lemma_first_cloud_repository(repositories: Seq<NamedRepository>)
    ensures
        0 <= first_cloud_repository(repositories) <= repositories.len(),
        first_cloud_repository(repositories) < repositories.len() ==> is_cloud_storage(
            repositories[first_cloud_repository(repositories)].settings.kind@,
        ),
        forall|i: int|
            0 <= i < first_cloud_repository(repositories) ==> !is_cloud_storage(
                (#[trigger] repositories[i]).settings.kind@,
            ),
    decreases repositories.len(),
{
    if repositories.len() > 0 && !is_cloud_storage(repositories[0].settings.kind@) {
        let rest = repositories.drop_first();
        lemma_first_cloud_repository(rest);
        let at = first_cloud_repository(rest);
        if at < rest.len() {
            assert(rest[at] == repositories[at + 1]);
        }
        assert forall|i: int| 0 <= i < at + 1 implies !is_cloud_storage(
            (#[trigger] repositories[i]).settings.kind@,
        ) by {
            if i > 0 {
                assert(rest[i - 1] == repositories[i]);
            }
        }
    }
}

fn is_cloud_kind(kind: &String) -> (cloud: bool)
    ensures
        cloud == is_cloud_storage(kind@),
{
    let gcs = String::from_str("gcs");
    let s3 = String::from_str("s3");
    *kind == gcs || *kind == s3
}

/// Picks the repository that snapshots go to: the first of the listing
/// whose backend is Google Cloud Storage (`gcs`) or S3 (`s3`).
pub fn find_snapshot_repository(repositories: &Vec<NamedRepository>) -> (found: Result<
    String,
    SnapshotError,
>)
    ensures
        match found {
            Ok(name) => snapshot_repository(repositories@) == Some(name@),
            Err(e) => snapshot_repository(repositories@) is None && e == SnapshotError::NoRepository,
        },
{
    proof {
        lemma_first_cloud_repository(repositories@);
    }
    let mut i: usize = 0;
    while i < repositories.len()
        invariant
            i <= repositories.len(),
            i <= first_cloud_repository(repositories@) <= repositories.len(),
            first_cloud_repository(repositories@) < repositories.len() ==> is_cloud_storage(
                repositories@[first_cloud_repository(repositories@)].settings.kind@,
            ),
            forall|k: int|
                0 <= k < first_cloud_repository(repositories@) ==> !is_cloud_storage(
                    (#[trigger] repositories@[k]).settings.kind@,
                ),
        decreases repositories.len() - i,
    {
        if is_cloud_kind(&repositories[i].settings.kind) {
            return Ok(repositories[i].name.clone());
        }
        i += 1;
    }
    Err(SnapshotError::NoRepository)
}

/// The items of a JSON array of strings: each as a JSON string, with commas
/// between them.
pub open spec fn json_strings(items: Seq<Seq<char>>) -> Seq<char>
    decreases items.len(),
{
    if items.len() == 0 {
        Seq::empty()
    } else if items.len() == 1 {
        json_quoted(items[0])
    } else {
        json_strings(items.drop_last()) + ","@ + json_quoted(items.last())
    }
}

/// The JSON document of a snapshot request: the index pattern under
/// `indices`, the feature states as an array under `feature_states`.
pub open spec fn snapshot_document(request: SnapshotRequestView) -> Seq<char> {
    "{\"indices\":"@ + json_quoted(request.indices) + ",\"feature_states\":["@ + json_strings(
        request.feature_states,
    ) + "]}"@
}

/// Writes the JSON document of a snapshot request.
pub fn serialize_snapshot_request(request: &SnapshotRequest) -> (document: String)
    ensures
        document@ == snapshot_document(request@),
{
    let mut document = String::from_str("{\"indices\":");
    push_json_string(&mut document, request.indices.as_str());
    document.append(",\"feature_states\":[");
    let ghost head = document@;
    let ghost states = request@.feature_states;
    let mut i: usize = 0;
    assert(states.take(0) =~= Seq::<Seq<char>>::empty());
    assert(head + Seq::<char>::empty() =~= head);
    while i < request.feature_states.len()
        invariant
            i <= request.feature_states.len(),
            states == request@.feature_states,
            document@ == head + json_strings(states.take(i as int)),
        decreases request.feature_states.len() - i,
    {
        let ghost before = states.take(i as int);
        let ghost upto = states.take(i as int + 1);
        if i > 0 {
            document.append(",");
        }
        push_json_string(&mut document, request.feature_states[i].as_str());
        proof {
            assert(upto.drop_last() =~= before);
            assert(upto.last() == request.feature_states@[i as int]@);
            if i == 0 {
                assert(upto[0] == request.feature_states@[0]@);
                assert(document@ =~= head + json_strings(upto));
            } else {
                assert(document@ =~= head + json_strings(upto));
            }
        }
        i += 1;
    }
    assert(states.take(i as int) =~= states);
    document.append("]}");
    document
}

/// Target of the request that takes the snapshot `name` in `repository`.
pub open spec fn snapshot_path(repository: Seq<char>, name: Seq<char>) -> Seq<char> {
    "/_snapshot/"@ + repository + "/"@ + name + "?wait_for_completion=true"@
}

/// Target of the request that restores the snapshot `name` of `repository`.
pub open spec fn restore_path(repository: Seq<char>, name: Seq<char>) -> Seq<char> {
    "/_snapshot/"@ + repository + "/"@ + name + "/_restore?wait_for_completion=true"@
}

/// Target of the request that deletes the index `name`.
pub open spec fn index_path(name: Seq<char>) -> Seq<char> {
    "/"@ + name
}

/// The request that takes the snapshot `name` of what `request` describes,
/// in the repository picked from `repositories`; or why it cannot be made:
/// no repository can be picked, or the names give no valid target.
pub open spec fn take_snapshot_outcome(
    repositories: Seq<NamedRepository>,
    request: SnapshotRequestView,
    name: Seq<char>,
) -> Result<ComponentRequestView, SnapshotError> {
    match snapshot_repository(repositories) {
        None => Err(SnapshotError::NoRepository),
        Some(repository) => if uri_accepts(snapshot_path(repository, name)) {
            Ok(
                elasticsearch_request(
                    json_request(snapshot_path(repository, name), snapshot_document(request)),
                ),
            )
        } else {
            Err(SnapshotError::InvalidTarget)
        },
    }
}

/// The request that restores the snapshot `name` from the repository picked
/// from `repositories`; or why it cannot be made: no repository can be
/// picked, or the names give no valid target.
pub open spec fn restore_snapshot_outcome(repositories: Seq<NamedRepository>, name: Seq<char>) -> Result<
    ComponentRequestView,
    SnapshotError,
> {
    match snapshot_repository(repositories) {
        None => Err(SnapshotError::NoRepository),
        Some(repository) => if uri_accepts(restore_path(repository, name)) {
            Ok(elasticsearch_request(bare_request(Method::Post, restore_path(repository, name))))
        } else {
            Err(SnapshotError::InvalidTarget)
        },
    }
}

/// Whether `result` is `expected`, the request taken by its view.
pub open spec fn is_outcome<E>(
    result: Result<ComponentRequest, E>,
    expected: Result<ComponentRequestView, E>,
) -> bool {
    match result {
        Ok(request) => expected == Ok::<ComponentRequestView, E>(request@),
        Err(e) => expected == Err::<ComponentRequestView, E>(e),
    }
}

/// Asks for the configured snapshot repositories: `GET /_snapshot/_all`.
pub fn list_snapshot_repositories() -> (request: ComponentRequest)
    ensures
        request@ == elasticsearch_request(bare_request(Method::Get, "/_snapshot/_all"@)),
{
    make_elasticsearch_request(bare(Method::Get, String::from_str("/_snapshot/_all")))
}

/// Takes the snapshot `name` of what `req` describes, in the repository
/// that `find_snapshot_repository` picks from `repositories`. The request
/// returns when the snapshot is finished.
///
/// Fails where no repository can be picked, or where the names do not give
/// a valid request target.
pub fn take_snapshot(repositories: &Vec<NamedRepository>, req: &SnapshotRequest, name: &str) -> (request:
    Result<ComponentRequest, SnapshotError>)
    ensures
        is_outcome(request, take_snapshot_outcome(repositories@, req@, name@)),
{
    let repository = match find_snapshot_repository(repositories) {
        Ok(repository) => repository,
        Err(e) => {
            return Err(e);
        },
    };
    let mut path = String::from_str("/_snapshot/");
    path.append(repository.as_str());
    path.append("/");
    path.append(name);
    path.append("?wait_for_completion=true");
    let document = serialize_snapshot_request(req);
    match validated(post_json(path, document)) {
        Ok(request) => Ok(make_elasticsearch_request(request)),
        Err(_) => Err(SnapshotError::InvalidTarget),
    }
}

/// Restores the snapshot `name` from the repository that
/// `find_snapshot_repository` picks from `repositories`. The request
/// returns when the restore is finished.
///
/// Fails where no repository can be picked, or where the names do not give
/// a valid request target.
pub fn restore_snapshot(repositories: &Vec<NamedRepository>, name: &str) -> (request: Result<
    ComponentRequest,
    SnapshotError,
>)
    ensures
        is_outcome(request, restore_snapshot_outcome(repositories@, name@)),
{
    let repository = match find_snapshot_repository(repositories) {
        Ok(repository) => repository,
        Err(e) => {
            return Err(e);
        },
    };
    let mut path = String::from_str("/_snapshot/");
    path.append(repository.as_str());
    path.append("/");
    path.append(name);
    path.append("/_restore?wait_for_completion=true");
    match validated(bare(Method::Post, path)) {
        Ok(request) => Ok(make_elasticsearch_request(request)),
        Err(_) => Err(SnapshotError::InvalidTarget),
    }
}

/// Asks for all indices: `GET /*`.
pub fn get_all_indices() -> (request: ComponentRequest)
    ensures
        request@ == elasticsearch_request(bare_request(Method::Get, "/*"@)),
{
    make_elasticsearch_request(bare(Method::Get, String::from_str("/*")))
}

/// The request that deletes the index `name`, where that name gives a valid
/// target.
pub open spec fn delete_index_outcome(name: Seq<char>) -> Result<
    ComponentRequestView,
    RequestError,
> {
    if uri_accepts(index_path(name)) {
        Ok(elasticsearch_request(bare_request(Method::Delete, index_path(name))))
    } else {
        Err(RequestError::InvalidTarget)
    }
}

/// Deletes the index `name`: `DELETE /{name}`. Fails where the name does
/// not give a valid request target.
pub fn delete_index(name: &str) -> (request: Result<ComponentRequest, RequestError>)
    ensures
        is_outcome(request, delete_index_outcome(name@)),
{
    let mut path = String::from_str("/");
    path.append(name);
    match validated(bare(Method::Delete, path)) {
        Ok(request) => Ok(make_elasticsearch_request(request)),
        Err(e) => Err(e),
    }
}

/// Name of the snapshot that holds the workflow engine's exported records
/// for the backup `id`.
pub open spec fn records_snapshot_name(id: u64) -> Seq<char> {
    "camunda_zeebe_records_"@ + decimal(id as nat)
}

/// Name of the snapshot that holds the workflow engine's exported records
/// for the backup `id`: `camunda_zeebe_records_{id}`.
pub fn zeebe_records_snapshot(id: u64) -> (name: String)
    ensures
        name@ == records_snapshot_name(id),
{
    let mut name = String::from_str("camunda_zeebe_records_");
    push_decimal(&mut name, id);
    name
}

} // verus!
