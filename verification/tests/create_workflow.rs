use camunda_backup::common::ComponentRequest;
use camunda_backup::create::{
    backup_id_at, create, CreateCommand, CreateError, CreateFailure, CreatePhase, CreateReply,
    CreateWorkflow, PollPolicy, POLL_INTERVAL_SECONDS,
};
use camunda_backup::elasticsearch::{NamedRepository, SnapshotError, SnapshotRepository};
use camunda_backup::http::Method;
use camunda_backup::types::BackupState;

const ZEEBE: &str = "app.kubernetes.io/component=zeebe-gateway";
const OPERATE: &str = "app.kubernetes.io/component=operate";
const ELASTIC: &str = "app=elasticsearch-master";

/// A platform that keeps what it was asked to do.
struct Platform {
    operate_backups: Vec<String>,
    zeebe_backups: Vec<String>,
    snapshots: Vec<(String, String)>,
    exporting_paused: bool,
    pauses: usize,
    resumes: usize,
    waited: u64,
    queries_until_completed: usize,
    queries: usize,
    repositories: Vec<NamedRepository>,
    log: Vec<String>,
    fail_at: Option<usize>,
    fail_resume: bool,
    steps: usize,
}

fn platform() -> Platform {
    Platform {
        operate_backups: vec![],
        zeebe_backups: vec![],
        snapshots: vec![],
        exporting_paused: false,
        pauses: 0,
        resumes: 0,
        waited: 0,
        queries_until_completed: 3,
        queries: 0,
        repositories: vec![
            NamedRepository {
                name: "local".to_string(),
                settings: SnapshotRepository { kind: "fs".to_string() },
            },
            NamedRepository {
                name: "backups".to_string(),
                settings: SnapshotRepository { kind: "gcs".to_string() },
            },
        ],
        log: vec![],
        fail_at: None,
        fail_resume: false,
        steps: 0,
    }
}

fn check_route(request: &ComponentRequest, selector: &str, port: u16) {
    assert_eq!(request.selector, selector);
    assert_eq!(request.port, port);
    assert_eq!(request.host, "127.0.0.1");
}

impl Platform {
    fn perform(&mut self, command: &CreateCommand) -> CreateReply {
        let step = self.steps;
        self.steps += 1;
        let name = match command {
            CreateCommand::TakeOperateBackup(_) => "take-operate",
            CreateCommand::QueryOperateBackup(_) => "query-operate",
            CreateCommand::Wait(_) => "wait",
            CreateCommand::PauseExporting(_) => "pause",
            CreateCommand::ListRepositories(_) => "repositories",
            CreateCommand::TakeSnapshot(_) => "snapshot",
            CreateCommand::TakeZeebeBackup(_) => "take-zeebe",
            CreateCommand::QueryZeebeBackup(_) => "query-zeebe",
            CreateCommand::ResumeExporting(_) => "resume",
            CreateCommand::Finish(_) => "finish",
        };
        self.log.push(name.to_string());
        if self.fail_at == Some(step) {
            return CreateReply::Failed;
        }
        match command {
            CreateCommand::TakeOperateBackup(r) => {
                check_route(r, OPERATE, 8080);
                assert_eq!(r.request.method, Method::Post);
                assert_eq!(r.request.path, "/actuator/backups");
                assert_eq!(r.request.content_type, Some("application/json".to_string()));
                self.operate_backups.push(r.request.body.clone().unwrap());
                self.queries = 0;
                CreateReply::Done
            }
            CreateCommand::QueryOperateBackup(r) => {
                check_route(r, OPERATE, 8080);
                assert_eq!(r.request.method, Method::Get);
                assert!(r.request.path.starts_with("/actuator/backups/"));
                self.queries += 1;
                if self.queries >= self.queries_until_completed {
                    CreateReply::State(BackupState::Completed)
                } else if self.queries == 1 {
                    CreateReply::State(BackupState::DoesNotExist)
                } else {
                    CreateReply::State(BackupState::InProgress)
                }
            }
            CreateCommand::Wait(seconds) => {
                self.waited += seconds;
                CreateReply::Done
            }
            CreateCommand::PauseExporting(r) => {
                check_route(r, ZEEBE, 9600);
                assert_eq!(r.request.method, Method::Post);
                assert_eq!(r.request.path, "/actuator/exporting/pause");
                self.exporting_paused = true;
                self.pauses += 1;
                CreateReply::Done
            }
            CreateCommand::ListRepositories(r) => {
                check_route(r, ELASTIC, 9200);
                assert_eq!(r.request.method, Method::Get);
                assert_eq!(r.request.path, "/_snapshot/_all");
                CreateReply::Repositories(self.repositories.clone())
            }
            CreateCommand::TakeSnapshot(r) => {
                check_route(r, ELASTIC, 9200);
                assert_eq!(r.request.method, Method::Post);
                assert!(self.exporting_paused);
                self.snapshots.push((r.request.path.clone(), r.request.body.clone().unwrap()));
                CreateReply::Done
            }
            CreateCommand::TakeZeebeBackup(r) => {
                check_route(r, ZEEBE, 9600);
                assert_eq!(r.request.method, Method::Post);
                assert_eq!(r.request.path, "/actuator/backups");
                assert!(self.exporting_paused);
                self.zeebe_backups.push(r.request.body.clone().unwrap());
                self.queries = 0;
                CreateReply::Done
            }
            CreateCommand::QueryZeebeBackup(r) => {
                check_route(r, ZEEBE, 9600);
                assert_eq!(r.request.method, Method::Get);
                self.queries += 1;
                if self.queries >= self.queries_until_completed {
                    CreateReply::State(BackupState::Completed)
                } else {
                    CreateReply::State(BackupState::InProgress)
                }
            }
            CreateCommand::ResumeExporting(r) => {
                check_route(r, ZEEBE, 9600);
                assert_eq!(r.request.method, Method::Post);
                assert_eq!(r.request.path, "/actuator/exporting/resume");
                self.resumes += 1;
                if self.fail_resume {
                    CreateReply::Failed
                } else {
                    self.exporting_paused = false;
                    CreateReply::Done
                }
            }
            CreateCommand::Finish(_) => unreachable!(),
        }
    }

    fn run(&mut self, id: u64, policy: PollPolicy) -> Result<(), CreateError> {
        let (mut workflow, mut command) = CreateWorkflow::start(id, policy);
        loop {
            assert!(self.steps < 1000);
            if let CreateCommand::Finish(outcome) = command {
                assert!(workflow.is_finished());
                assert_eq!(workflow.outcome, Some(outcome));
                return outcome;
            }
            assert!(!workflow.is_finished());
            let reply = self.perform(&command);
            let next = workflow.advance(reply);
            workflow = next.0;
            command = next.1;
        }
    }
}

fn position(log: &[String], name: &str) -> Option<usize> {
    log.iter().position(|entry| entry == name)
}

fn count(log: &[String], name: &str) -> usize {
    log.iter().filter(|entry| *entry == name).count()
}

#[test]
fn create_backs_up_all_three_parts_under_one_id() {
    let mut p = platform();
    assert_eq!(p.run(1700000000, PollPolicy::patient()), Ok(()));
    assert_eq!(p.operate_backups, vec!["{\"backupId\":\"1700000000\"}".to_string()]);
    assert_eq!(p.zeebe_backups, vec!["{\"backupId\":\"1700000000\"}".to_string()]);
    assert_eq!(
        p.snapshots,
        vec![(
            "/_snapshot/backups/camunda_zeebe_records_1700000000?wait_for_completion=true"
                .to_string(),
            "{\"indices\":\"zeebe-record*\",\"feature_states\":[\"none\"]}".to_string()
        )]
    );
    assert!(!p.exporting_paused);
    assert_eq!(p.pauses, 1);
    assert_eq!(p.resumes, 1);
}

#[test]
fn create_follows_the_order_of_the_steps() {
    let mut p = platform();
    p.queries_until_completed = 2;
    assert_eq!(p.run(5, PollPolicy::patient()), Ok(()));
    assert_eq!(
        p.log,
        vec![
            "take-operate",
            "query-operate",
            "wait",
            "query-operate",
            "pause",
            "repositories",
            "snapshot",
            "take-zeebe",
            "query-zeebe",
            "wait",
            "query-zeebe",
            "resume"
        ]
    );
    assert_eq!(p.waited, 2 * POLL_INTERVAL_SECONDS);
    assert_eq!(POLL_INTERVAL_SECONDS, 5);
}

#[test]
fn create_queries_by_the_backup_id() {
    let (workflow, first) = CreateWorkflow::start(77, PollPolicy::patient());
    match first {
        CreateCommand::TakeOperateBackup(r) => {
            assert_eq!(r.request.body, Some("{\"backupId\":\"77\"}".to_string()))
        }
        other => panic!("unexpected {:?}", other),
    }
    let (workflow, second) = workflow.advance(CreateReply::Done);
    assert_eq!(workflow.phase, CreatePhase::PollingOperate);
    match second {
        CreateCommand::QueryOperateBackup(r) => assert_eq!(r.request.path, "/actuator/backups/77"),
        other => panic!("unexpected {:?}", other),
    }
    let (workflow, third) = workflow.advance(CreateReply::State(BackupState::Completed));
    assert_eq!(workflow.phase, CreatePhase::Pausing);
    assert!(matches!(third, CreateCommand::PauseExporting(_)));
}

#[test]
fn pause_comes_before_snapshot_and_zeebe_backup() {
    for wait in 1..5 {
        let mut p = platform();
        p.queries_until_completed = wait;
        assert_eq!(p.run(1, PollPolicy::patient()), Ok(()));
        let pause = position(&p.log, "pause").unwrap();
        let snapshot = position(&p.log, "snapshot").unwrap();
        let zeebe = position(&p.log, "take-zeebe").unwrap();
        assert!(pause < snapshot);
        assert!(snapshot < zeebe);
        assert_eq!(count(&p.log, "pause"), 1);
        assert_eq!(count(&p.log, "resume"), 1);
        assert_eq!(p.log.last().unwrap(), "resume");
    }
}

#[test]
fn every_failure_is_followed_by_one_resume() {
    let mut clean = platform();
    clean.queries_until_completed = 1;
    assert_eq!(clean.run(9, PollPolicy::patient()), Ok(()));
    let steps = clean.log.clone();
    assert_eq!(
        steps,
        vec![
            "take-operate",
            "query-operate",
            "pause",
            "repositories",
            "snapshot",
            "take-zeebe",
            "query-zeebe",
            "resume"
        ]
    );
    let phases = [
        CreatePhase::StartingOperateBackup,
        CreatePhase::PollingOperate,
        CreatePhase::Pausing,
        CreatePhase::FindingRepository,
        CreatePhase::TakingSnapshot,
        CreatePhase::StartingZeebeBackup,
        CreatePhase::PollingZeebe,
        CreatePhase::Resuming,
    ];
    for at in 0..steps.len() {
        if steps[at].starts_with("query") {
            // a failed query is only a reason to ask again
            continue;
        }
        let mut p = platform();
        p.queries_until_completed = 1;
        p.fail_at = Some(at);
        let outcome = p.run(9, PollPolicy::patient());
        assert_eq!(outcome, Err(CreateError::Failed(CreateFailure::CommandFailed(phases[at]))));
        assert_eq!(p.log[..at + 1], steps[..at + 1]);
        assert_eq!(p.log[at + 1..], ["resume".to_string()]);
        assert!(!p.exporting_paused);
        if at < 2 {
            assert_eq!(p.pauses, 0);
        }
    }
}

#[test]
fn a_failed_query_leads_to_another_query() {
    let mut p = platform();
    p.queries_until_completed = 2;
    p.fail_at = Some(1);
    assert_eq!(p.run(9, PollPolicy::patient()), Ok(()));
    assert_eq!(p.log[..4], ["take-operate", "query-operate", "wait", "query-operate"]);
    assert_eq!(p.resumes, 1);
}

#[test]
fn a_failed_resume_is_reported_with_the_first_failure() {
    let mut p = platform();
    p.fail_at = Some(0);
    p.fail_resume = true;
    assert_eq!(
        p.run(9, PollPolicy::patient()),
        Err(CreateError::ResumeFailed(CreateFailure::CommandFailed(
            CreatePhase::StartingOperateBackup
        )))
    );
    assert_eq!(p.log, vec!["take-operate", "resume"]);

    let mut p = platform();
    p.queries_until_completed = 1;
    p.fail_resume = true;
    assert_eq!(
        p.run(9, PollPolicy::patient()),
        Err(CreateError::ResumeFailed(CreateFailure::CommandFailed(CreatePhase::Resuming)))
    );
    assert_eq!(count(&p.log, "resume"), 2);
    assert!(p.exporting_paused);
}

#[test]
fn a_missing_repository_ends_the_creation() {
    let mut p = platform();
    p.repositories = vec![];
    p.queries_until_completed = 1;
    assert_eq!(
        p.run(9, PollPolicy::patient()),
        Err(CreateError::Failed(CreateFailure::Snapshot(SnapshotError::NoRepository)))
    );
    assert_eq!(p.log, vec!["take-operate", "query-operate", "pause", "repositories", "resume"]);
    assert!(p.snapshots.is_empty());
    assert!(p.zeebe_backups.is_empty());
    assert!(!p.exporting_paused);
}

#[test]
fn a_repository_with_an_invalid_name_ends_the_creation() {
    let mut p = platform();
    p.repositories = vec![NamedRepository {
        name: "my bucket".to_string(),
        settings: SnapshotRepository { kind: "s3".to_string() },
    }];
    p.queries_until_completed = 1;
    assert_eq!(
        p.run(9, PollPolicy::patient()),
        Err(CreateError::Failed(CreateFailure::Snapshot(SnapshotError::InvalidTarget)))
    );
    assert_eq!(p.resumes, 1);
}

#[test]
fn the_patient_policy_keeps_asking_whatever_the_state() {
    let (w, _) = CreateWorkflow::start(1, PollPolicy::patient());
    let (mut w, mut c) = w.advance(CreateReply::Done);
    let replies = [
        CreateReply::State(BackupState::Failed),
        CreateReply::State(BackupState::InProgress),
        CreateReply::State(BackupState::Incomplete),
        CreateReply::State(BackupState::DoesNotExist),
        CreateReply::Failed,
        CreateReply::Done,
        CreateReply::Repositories(vec![]),
    ];
    let mut polls = 1;
    for round in 0..50 {
        assert!(matches!(c, CreateCommand::QueryOperateBackup(_)));
        assert_eq!(w.polls, polls);
        let next = w.advance(replies[round % replies.len()].clone());
        assert_eq!(next.0.phase, CreatePhase::WaitingForOperate);
        assert_eq!(next.1, CreateCommand::Wait(5));
        let next = next.0.advance(CreateReply::Done);
        assert_eq!(next.0.phase, CreatePhase::PollingOperate);
        w = next.0;
        c = next.1;
        polls += 1;
    }
}

#[test]
fn the_strict_policy_gives_up_on_a_failed_backup() {
    let (w, _) = CreateWorkflow::start(1, PollPolicy::strict(10));
    let (w, _) = w.advance(CreateReply::Done);
    let (w, c) = w.advance(CreateReply::State(BackupState::Failed));
    assert_eq!(w.phase, CreatePhase::Compensating);
    assert!(matches!(c, CreateCommand::ResumeExporting(_)));
    let (w, c) = w.advance(CreateReply::Done);
    assert!(w.is_finished());
    assert_eq!(
        c,
        CreateCommand::Finish(Err(CreateError::Failed(CreateFailure::BackupFailed(
            CreatePhase::PollingOperate
        ))))
    );
}

#[test]
fn the_strict_policy_gives_up_after_the_allowed_queries() {
    let mut p = platform();
    p.queries_until_completed = 4;
    assert_eq!(
        p.run(1, PollPolicy::strict(3)),
        Err(CreateError::Failed(CreateFailure::PollsExhausted(CreatePhase::PollingOperate)))
    );
    assert_eq!(count(&p.log, "query-operate"), 3);
    assert_eq!(count(&p.log, "wait"), 2);
    assert_eq!(p.resumes, 1);

    let mut p = platform();
    p.queries_until_completed = 3;
    assert_eq!(p.run(1, PollPolicy::strict(3)), Ok(()));
    assert_eq!(count(&p.log, "query-operate"), 3);
    assert_eq!(count(&p.log, "query-zeebe"), 3);

    let policy = PollPolicy { fail_on_failed: false, max_polls: Some(0) };
    let mut p = platform();
    p.queries_until_completed = 2;
    assert_eq!(
        p.run(1, policy),
        Err(CreateError::Failed(CreateFailure::PollsExhausted(CreatePhase::PollingOperate)))
    );
    assert_eq!(count(&p.log, "query-operate"), 1);
}

#[test]
fn policies() {
    assert_eq!(PollPolicy::patient(), PollPolicy { fail_on_failed: false, max_polls: None });
    assert_eq!(PollPolicy::strict(4), PollPolicy { fail_on_failed: true, max_polls: Some(4) });
}

#[test]
fn an_unexpected_reply_ends_the_creation() {
    let (w, _) = CreateWorkflow::start(1, PollPolicy::patient());
    let (w, c) = w.advance(CreateReply::State(BackupState::Completed));
    assert_eq!(w.phase, CreatePhase::Compensating);
    assert_eq!(
        w.failure,
        Some(CreateFailure::UnexpectedReply(CreatePhase::StartingOperateBackup))
    );
    assert!(matches!(c, CreateCommand::ResumeExporting(_)));
    let (w, c) = w.advance(CreateReply::Repositories(vec![]));
    assert!(w.is_finished());
    assert_eq!(
        c,
        CreateCommand::Finish(Err(CreateError::ResumeFailed(CreateFailure::UnexpectedReply(
            CreatePhase::StartingOperateBackup
        ))))
    );
}

#[test]
fn a_finished_creation_stays_finished() {
    let mut p = platform();
    p.fail_at = Some(0);
    let (mut w, mut c) = CreateWorkflow::start(4, PollPolicy::patient());
    while !w.is_finished() {
        let reply = p.perform(&c);
        let next = w.advance(reply);
        w = next.0;
        c = next.1;
    }
    let outcome = Err(CreateError::Failed(CreateFailure::CommandFailed(
        CreatePhase::StartingOperateBackup,
    )));
    assert_eq!(c, CreateCommand::Finish(outcome));
    let (w, c) = w.advance(CreateReply::Done);
    assert!(w.is_finished());
    assert_eq!(c, CreateCommand::Finish(outcome));
    let (w, c) = w.advance(CreateReply::Failed);
    assert!(w.is_finished());
    assert_eq!(c, CreateCommand::Finish(outcome));
}

#[test]
fn backup_ids_are_timestamps() {
    assert_eq!(backup_id_at(1700000000), 1700000000);
    assert_eq!(backup_id_at(0), 0);
    assert_eq!(backup_id_at(i64::MAX), i64::MAX as u64);
    assert_eq!(backup_id_at(-1), u64::MAX);
}

#[test]
fn create_names_the_backup_after_the_clock() {
    let (workflow, command) = create(PollPolicy::patient());
    assert!(workflow.backup_id > 1_600_000_000);
    assert!(workflow.backup_id < 100_000_000_000);
    assert_eq!(workflow.phase, CreatePhase::StartingOperateBackup);
    match command {
        CreateCommand::TakeOperateBackup(r) => assert_eq!(
            r.request.body,
            Some(format!("{{\"backupId\":\"{}\"}}", workflow.backup_id))
        ),
        other => panic!("unexpected {:?}", other),
    }
}
