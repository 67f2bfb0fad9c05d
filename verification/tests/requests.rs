use camunda_backup::common::{
    make_component_request, make_elasticsearch_request, make_operate_request, make_zeebe_request,
    ComponentRequest,
};
use camunda_backup::components::{create, delete, list, query, serialize_backup};
use camunda_backup::elasticsearch::{
    delete_index, find_snapshot_repository, get_all_indices, list_snapshot_repositories,
    restore_snapshot, serialize_snapshot_request, take_snapshot, zeebe_records_snapshot,
    NamedRepository, SnapshotError, SnapshotRepository, SnapshotRequest,
};
use camunda_backup::http::{
    accept_request, bare, post_json, push_json_string, response_body, validated, HttpRequest,
    HttpResponse, Method, RequestError,
};
use camunda_backup::types::Backup;
use camunda_backup::{operate, zeebe};

fn repo(name: &str, kind: &str) -> NamedRepository {
    NamedRepository { name: name.to_string(), settings: SnapshotRepository { kind: kind.to_string() } }
}

fn assert_routed(request: &ComponentRequest, selector: &str, port: u16) {
    assert_eq!(request.selector, selector);
    assert_eq!(request.port, port);
    assert_eq!(request.host, "127.0.0.1");
}

#[test]
fn backup_requests_of_a_component() {
    let q = query(1700000000);
    assert_eq!(
        q,
        HttpRequest {
            method: Method::Get,
            path: "/actuator/backups/1700000000".to_string(),
            content_type: None,
            body: None
        }
    );
    let l = list();
    assert_eq!(
        l,
        HttpRequest {
            method: Method::Get,
            path: "/actuator/backups".to_string(),
            content_type: None,
            body: None
        }
    );
    let c = create(1700000000);
    assert_eq!(
        c,
        HttpRequest {
            method: Method::Post,
            path: "/actuator/backups".to_string(),
            content_type: Some("application/json".to_string()),
            body: Some("{\"backupId\":\"1700000000\"}".to_string())
        }
    );
    let d = delete(42);
    assert_eq!(
        d,
        HttpRequest {
            method: Method::Delete,
            path: "/actuator/backups/42".to_string(),
            content_type: Some("application/json".to_string()),
            body: None
        }
    );
}

#[test]
fn backup_document_quotes_the_identifier() {
    assert_eq!(
        serialize_backup(&Backup { backup_id: "0".to_string() }),
        "{\"backupId\":\"0\"}"
    );
    assert_eq!(
        serialize_backup(&Backup { backup_id: "a\"b\\c".to_string() }),
        "{\"backupId\":\"a\\\"b\\\\c\"}"
    );
}

#[test]
fn json_strings_escape_what_json_asks_for() {
    let mut out = String::from("x=");
    push_json_string(&mut out, "plain");
    assert_eq!(out, "x=\"plain\"");

    let mut out = String::new();
    push_json_string(&mut out, "");
    assert_eq!(out, "\"\"");

    let mut out = String::new();
    push_json_string(&mut out, "\"\\\u{8}\t\n\u{c}\r");
    assert_eq!(out, "\"\\\"\\\\\\b\\t\\n\\f\\r\"");

    let mut out = String::new();
    push_json_string(&mut out, "\u{0}\u{1}\u{b}\u{1f}\u{7f} /é\u{1F600}");
    assert_eq!(out, "\"\\u0000\\u0001\\u000b\\u001f\u{7f} /é\u{1F600}\"");
}

#[test]
fn json_strings_escape_every_control_character() {
    let hex = ['0', '1', '2', '3', '4', '5', '6', '7', '8', '9', 'a', 'b', 'c', 'd', 'e', 'f'];
    for code in 0u32..0x20 {
        let c = char::from_u32(code).unwrap();
        let expected = match c {
            '\u{8}' => "\"\\b\"".to_string(),
            '\t' => "\"\\t\"".to_string(),
            '\n' => "\"\\n\"".to_string(),
            '\u{c}' => "\"\\f\"".to_string(),
            '\r' => "\"\\r\"".to_string(),
            _ => format!(
                "\"\\u00{}{}\"",
                hex[(code / 16) as usize],
                hex[(code % 16) as usize]
            ),
        };
        let mut out = String::new();
        push_json_string(&mut out, &c.to_string());
        assert_eq!(out, expected);
    }
    for code in 0x20u32..0x80 {
        let c = char::from_u32(code).unwrap();
        let expected = match c {
            '"' => "\"\\\"\"".to_string(),
            '\\' => "\"\\\\\"".to_string(),
            _ => format!("\"{}\"", c),
        };
        let mut out = String::new();
        push_json_string(&mut out, &c.to_string());
        assert_eq!(out, expected);
    }
}

#[test]
fn zeebe_requests_go_to_the_gateway() {
    let take = zeebe::take_backup(1700000000);
    assert_routed(&take, "app.kubernetes.io/component=zeebe-gateway", 9600);
    assert_eq!(take.request, create(1700000000));
    let q = zeebe::query_backup(7);
    assert_routed(&q, "app.kubernetes.io/component=zeebe-gateway", 9600);
    assert_eq!(q.request, query(7));
    let l = zeebe::list_backups();
    assert_routed(&l, "app.kubernetes.io/component=zeebe-gateway", 9600);
    assert_eq!(l.request, list());
    let pause = zeebe::pause_exporting();
    assert_routed(&pause, "app.kubernetes.io/component=zeebe-gateway", 9600);
    assert_eq!(
        pause.request,
        bare(Method::Post, "/actuator/exporting/pause".to_string())
    );
    let resume = zeebe::resume_exporting();
    assert_routed(&resume, "app.kubernetes.io/component=zeebe-gateway", 9600);
    assert_eq!(
        resume.request,
        HttpRequest {
            method: Method::Post,
            path: "/actuator/exporting/resume".to_string(),
            content_type: None,
            body: None
        }
    );
}

#[test]
fn operate_requests_go_to_operate() {
    let take = operate::take_backup(3);
    assert_routed(&take, "app.kubernetes.io/component=operate", 8080);
    assert_eq!(take.request.body, Some("{\"backupId\":\"3\"}".to_string()));
    assert_eq!(take.request.method, Method::Post);
    assert_eq!(take.request.path, "/actuator/backups");
    let q = operate::query_backup(3);
    assert_routed(&q, "app.kubernetes.io/component=operate", 8080);
    assert_eq!(q.request, query(3));
    let l = operate::list_backups();
    assert_routed(&l, "app.kubernetes.io/component=operate", 8080);
    assert_eq!(l.request, list());
}

#[test]
fn routing_keeps_the_request() {
    let request = post_json("/x".to_string(), "{}".to_string());
    let z = make_zeebe_request(request.clone());
    assert_routed(&z, "app.kubernetes.io/component=zeebe-gateway", 9600);
    assert_eq!(z.request, request);
    let o = make_operate_request(request.clone());
    assert_routed(&o, "app.kubernetes.io/component=operate", 8080);
    assert_eq!(o.request, request);
    let e = make_elasticsearch_request(request.clone());
    assert_routed(&e, "app=elasticsearch-master", 9200);
    assert_eq!(e.request, request);
    let c = make_component_request("app=other", 1234, request.clone());
    assert_routed(&c, "app=other", 1234);
    assert_eq!(c.request, request);
}

#[test]
fn response_body_needs_a_success_status() {
    let body = vec![1u8, 2, 3];
    assert_eq!(response_body(HttpResponse { status: 200, body: body.clone() }), Ok(body.clone()));
    assert_eq!(response_body(HttpResponse { status: 204, body: vec![] }), Ok(vec![]));
    assert_eq!(response_body(HttpResponse { status: 299, body: body.clone() }), Ok(body.clone()));
    assert_eq!(
        response_body(HttpResponse { status: 199, body: body.clone() }),
        Err(RequestError::Status(199))
    );
    assert_eq!(
        response_body(HttpResponse { status: 300, body: body.clone() }),
        Err(RequestError::Status(300))
    );
    assert_eq!(
        response_body(HttpResponse { status: 404, body: body.clone() }),
        Err(RequestError::Status(404))
    );
    assert_eq!(
        response_body(HttpResponse { status: 500, body }),
        Err(RequestError::Status(500))
    );
}

#[test]
fn requests_are_handed_on_only_when_accepted() {
    let request = bare(Method::Get, "/a".to_string());
    assert_eq!(accept_request(true, request.clone()), Ok(request.clone()));
    assert_eq!(accept_request(false, request), Err(RequestError::InvalidTarget));
}

#[test]
fn targets_are_checked_by_the_uri_parser() {
    let good = bare(Method::Get, "/my-index_2023.11".to_string());
    assert_eq!(validated(good.clone()), Ok(good));
    assert_eq!(
        validated(bare(Method::Get, "/with space".to_string())),
        Err(RequestError::InvalidTarget)
    );
    assert_eq!(validated(bare(Method::Get, String::new())), Err(RequestError::InvalidTarget));
    assert_eq!(
        validated(bare(Method::Get, "/tab\there".to_string())),
        Err(RequestError::InvalidTarget)
    );
    assert_eq!(
        validated(bare(Method::Get, "/ünïcode".to_string())),
        Err(RequestError::InvalidTarget)
    );
}

#[test]
fn index_requests() {
    let all = get_all_indices();
    assert_routed(&all, "app=elasticsearch-master", 9200);
    assert_eq!(all.request, bare(Method::Get, "/*".to_string()));

    let del = delete_index("operate-list-view-8.1.0_").unwrap();
    assert_routed(&del, "app=elasticsearch-master", 9200);
    assert_eq!(del.request, bare(Method::Delete, "/operate-list-view-8.1.0_".to_string()));

    assert_eq!(delete_index("bad name"), Err(RequestError::InvalidTarget));
    assert_eq!(delete_index("new\nline"), Err(RequestError::InvalidTarget));
}

#[test]
fn snapshot_repository_is_the_first_on_cloud_storage() {
    let repos = vec![repo("local", "fs"), repo("bucket", "gcs"), repo("other", "s3")];
    assert_eq!(find_snapshot_repository(&repos), Ok("bucket".to_string()));
    let repos = vec![repo("aws", "s3"), repo("bucket", "gcs")];
    assert_eq!(find_snapshot_repository(&repos), Ok("aws".to_string()));
    let repos = vec![repo("local", "fs"), repo("azure", "azure"), repo("odd", "GCS")];
    assert_eq!(find_snapshot_repository(&repos), Err(SnapshotError::NoRepository));
    assert_eq!(find_snapshot_repository(&vec![]), Err(SnapshotError::NoRepository));
}

#[test]
fn snapshot_request_document() {
    let req = SnapshotRequest {
        indices: "zeebe-record*".to_string(),
        feature_states: vec!["none".to_string()],
    };
    assert_eq!(
        serialize_snapshot_request(&req),
        "{\"indices\":\"zeebe-record*\",\"feature_states\":[\"none\"]}"
    );
    let req = SnapshotRequest { indices: "a\"b".to_string(), feature_states: vec![] };
    assert_eq!(serialize_snapshot_request(&req), "{\"indices\":\"a\\\"b\",\"feature_states\":[]}");
    let req = SnapshotRequest {
        indices: String::new(),
        feature_states: vec!["x".to_string(), "y\n".to_string(), "z".to_string()],
    };
    assert_eq!(
        serialize_snapshot_request(&req),
        "{\"indices\":\"\",\"feature_states\":[\"x\",\"y\\n\",\"z\"]}"
    );
}

#[test]
fn snapshot_requests_name_the_repository() {
    let repos = vec![repo("local", "fs"), repo("bucket", "gcs")];
    let req = SnapshotRequest {
        indices: "zeebe-record*".to_string(),
        feature_states: vec!["none".to_string()],
    };
    let take = take_snapshot(&repos, &req, "camunda_zeebe_records_1700000000").unwrap();
    assert_routed(&take, "app=elasticsearch-master", 9200);
    assert_eq!(
        take.request,
        HttpRequest {
            method: Method::Post,
            path: "/_snapshot/bucket/camunda_zeebe_records_1700000000?wait_for_completion=true"
                .to_string(),
            content_type: Some("application/json".to_string()),
            body: Some("{\"indices\":\"zeebe-record*\",\"feature_states\":[\"none\"]}".to_string()),
        }
    );
    let restore = restore_snapshot(&repos, "snap-1").unwrap();
    assert_routed(&restore, "app=elasticsearch-master", 9200);
    assert_eq!(
        restore.request,
        bare(
            Method::Post,
            "/_snapshot/bucket/snap-1/_restore?wait_for_completion=true".to_string()
        )
    );
    let listing = list_snapshot_repositories();
    assert_routed(&listing, "app=elasticsearch-master", 9200);
    assert_eq!(listing.request, bare(Method::Get, "/_snapshot/_all".to_string()));
}

#[test]
fn snapshot_requests_fail_without_repository_or_valid_name() {
    let req = SnapshotRequest { indices: "i".to_string(), feature_states: vec![] };
    let none = vec![repo("local", "fs")];
    assert_eq!(take_snapshot(&none, &req, "s"), Err(SnapshotError::NoRepository));
    assert_eq!(restore_snapshot(&none, "s"), Err(SnapshotError::NoRepository));
    let repos = vec![repo("bucket", "s3")];
    assert_eq!(take_snapshot(&repos, &req, "bad name"), Err(SnapshotError::InvalidTarget));
    assert_eq!(restore_snapshot(&repos, "bad name"), Err(SnapshotError::InvalidTarget));
    let odd = vec![repo("my bucket", "s3")];
    assert_eq!(take_snapshot(&odd, &req, "s"), Err(SnapshotError::InvalidTarget));
    assert_eq!(restore_snapshot(&odd, "s"), Err(SnapshotError::InvalidTarget));
    // the repository is looked for first
    assert_eq!(take_snapshot(&none, &req, "bad name"), Err(SnapshotError::NoRepository));
}

#[test]
fn records_snapshot_name() {
    assert_eq!(zeebe_records_snapshot(1700000000), "camunda_zeebe_records_1700000000");
    assert_eq!(zeebe_records_snapshot(0), "camunda_zeebe_records_0");
}
