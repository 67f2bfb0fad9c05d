use camunda_backup::apps::{AppsError, ScaleCommand, Workload, WorkloadKind};
use camunda_backup::elasticsearch::{NamedRepository, SnapshotError, SnapshotRepository};
use camunda_backup::http::{Method, RequestError};
use camunda_backup::jobs::{
    BrokerContainer, BrokerPodSpec, BrokerSet, Claim, EnvVar, JobError, JobStep,
};
use camunda_backup::restore::{
    delete_indices, delete_zeebe_data, restore, restore_indices, restore_zeebe_data, Backup,
    RestoreCommand, RestoreError, RestorePhase, RestoreReply, RestoreWorkflow,
};
use camunda_backup::types::{BackupDescriptor, BackupState, OperateDetails, ZeebeDetails};
use std::collections::BTreeMap;

const ZEEBE: &str = "app.kubernetes.io/component=zeebe-gateway";
const OPERATE: &str = "app.kubernetes.io/component=operate";
const ELASTIC: &str = "app=elasticsearch-master";
const PLATFORM: &str = "app.kubernetes.io/part-of=camunda-platform";
const BROKERS: &str = "app.kubernetes.io/component=zeebe-broker";

/// A cluster that keeps what was done to it.
struct Cluster {
    zeebe_backups: Vec<BackupDescriptor<ZeebeDetails>>,
    operate_snapshots: Vec<String>,
    deployments: BTreeMap<String, i32>,
    statefulsets: BTreeMap<String, i32>,
    indices: Vec<String>,
    restored: Vec<String>,
    repositories: Vec<NamedRepository>,
    claims: Vec<String>,
    brokers: Vec<BrokerSet>,
    /// what each volume holds
    volumes: BTreeMap<String, String>,
    active_jobs: BTreeMap<String, camunda_backup::jobs::VolumeJob>,
    completed_jobs: Vec<String>,
    log: Vec<String>,
    fail_at: Option<usize>,
    steps: usize,
}

fn broker_set() -> BrokerSet {
    BrokerSet {
        pod_spec: Some(BrokerPodSpec {
            service_account_name: Some("zeebe".to_string()),
            containers: vec![BrokerContainer {
                image: Some("camunda/zeebe:8.1.0".to_string()),
                env: Some(vec![EnvVar {
                    name: "ZEEBE_BROKER_CLUSTER_SIZE".to_string(),
                    value: Some("3".to_string()),
                    value_from: None,
                }]),
            }],
        }),
    }
}

fn cluster() -> Cluster {
    let mut deployments = BTreeMap::new();
    deployments.insert("operate".to_string(), 1);
    deployments.insert("tasklist".to_string(), 0);
    deployments.insert("zeebe-gateway".to_string(), 2);
    let mut statefulsets = BTreeMap::new();
    statefulsets.insert("zeebe".to_string(), 3);
    statefulsets.insert("elasticsearch-master".to_string(), 2);
    let mut volumes = BTreeMap::new();
    for i in 0..3 {
        volumes.insert(format!("data-zeebe-{}", i), "stale".to_string());
    }
    Cluster {
        zeebe_backups: vec![
            BackupDescriptor { backup_id: 1600000000, state: BackupState::Completed, details: vec![] },
            BackupDescriptor { backup_id: 1700000000, state: BackupState::Completed, details: vec![] },
            BackupDescriptor { backup_id: 1800000000, state: BackupState::Failed, details: vec![] },
        ],
        operate_snapshots: vec![
            "camunda_operate_1700000000_8.1.0_part_1_of_2".to_string(),
            "camunda_operate_1700000000_8.1.0_part_2_of_2".to_string(),
        ],
        deployments,
        statefulsets,
        indices: vec!["operate-list".to_string(), "zeebe-record-job".to_string()],
        restored: vec![],
        repositories: vec![NamedRepository {
            name: "gcs".to_string(),
            settings: SnapshotRepository { kind: "gcs".to_string() },
        }],
        claims: vec![
            "data-zeebe-0".to_string(),
            "data-zeebe-1".to_string(),
            "data-zeebe-2".to_string(),
        ],
        brokers: vec![broker_set()],
        volumes,
        active_jobs: BTreeMap::new(),
        completed_jobs: vec![],
        log: vec![],
        fail_at: None,
        steps: 0,
    }
}

fn listing(workloads: &BTreeMap<String, i32>) -> Vec<Workload> {
    workloads
        .iter()
        .map(|(name, replicas)| Workload { name: Some(name.clone()), replicas: Some(*replicas) })
        .collect()
}

impl Cluster {
    fn all_down(&self) -> bool {
        self.deployments.values().all(|r| *r == 0) && self.statefulsets.values().all(|r| *r == 0)
    }

    fn perform(&mut self, command: &RestoreCommand) -> RestoreReply {
        let step = self.steps;
        self.steps += 1;
        if self.fail_at == Some(step) {
            self.log.push("failure".to_string());
            return RestoreReply::Failed;
        }
        match command {
            RestoreCommand::ListZeebeBackups(r) => {
                assert_eq!(r.selector, ZEEBE);
                assert_eq!(r.port, 9600);
                assert_eq!(r.request.method, Method::Get);
                assert_eq!(r.request.path, "/actuator/backups");
                self.log.push("list-backups".to_string());
                RestoreReply::ZeebeBackups(self.zeebe_backups.clone())
            }
            RestoreCommand::QueryOperateBackup(r) => {
                assert_eq!(r.selector, OPERATE);
                assert_eq!(r.port, 8080);
                assert_eq!(r.request.method, Method::Get);
                self.log.push(format!("query-operate {}", r.request.path));
                let id: u64 = r.request.path.rsplit('/').next().unwrap().parse().unwrap();
                RestoreReply::OperateBackup(BackupDescriptor {
                    backup_id: id,
                    state: BackupState::Completed,
                    details: self
                        .operate_snapshots
                        .iter()
                        .map(|s| OperateDetails { snapshot_name: s.clone() })
                        .collect(),
                })
            }
            RestoreCommand::ListWorkloads(selector) => {
                assert_eq!(selector, PLATFORM);
                self.log.push("list-workloads".to_string());
                RestoreReply::Workloads(listing(&self.deployments), listing(&self.statefulsets))
            }
            RestoreCommand::Scale(ScaleCommand { kind, name, replicas }) => {
                self.log.push(format!("scale {} {}", name, replicas));
                let workloads = match kind {
                    WorkloadKind::Deployment => &mut self.deployments,
                    WorkloadKind::StatefulSet => &mut self.statefulsets,
                };
                assert!(workloads.contains_key(name));
                workloads.insert(name.clone(), *replicas);
                RestoreReply::Done
            }
            RestoreCommand::ListIndices(r) => {
                assert_eq!(r.selector, ELASTIC);
                assert_eq!(r.request.path, "/*");
                assert!(self.all_down());
                self.log.push("list-indices".to_string());
                RestoreReply::Indices(self.indices.clone())
            }
            RestoreCommand::ListRepositories(r) => {
                assert_eq!(r.selector, ELASTIC);
                assert_eq!(r.request.path, "/_snapshot/_all");
                self.log.push("list-repositories".to_string());
                RestoreReply::Repositories(self.repositories.clone())
            }
            RestoreCommand::Send(r) => {
                assert_eq!(r.selector, ELASTIC);
                assert_eq!(r.port, 9200);
                assert!(self.all_down());
                match r.request.method {
                    Method::Delete => {
                        let name = r.request.path[1..].to_string();
                        assert!(self.indices.contains(&name));
                        self.indices.retain(|i| *i != name);
                        self.log.push(format!("delete-index {}", name));
                    }
                    Method::Post => {
                        let path = &r.request.path;
                        let prefix = "/_snapshot/gcs/";
                        let suffix = "/_restore?wait_for_completion=true";
                        assert!(path.starts_with(prefix) && path.ends_with(suffix));
                        assert!(self.indices.is_empty());
                        let name = path[prefix.len()..path.len() - suffix.len()].to_string();
                        self.log.push(format!("restore-snapshot {}", name));
                        self.restored.push(name);
                    }
                    Method::Get => panic!("unexpected request"),
                }
                RestoreReply::Done
            }
            RestoreCommand::ListClaims(selector) => {
                assert_eq!(selector, BROKERS);
                self.log.push("list-claims".to_string());
                RestoreReply::Claims(
                    self.claims.iter().map(|c| Claim { name: Some(c.clone()) }).collect(),
                )
            }
            RestoreCommand::ListBrokerSets(selector) => {
                assert_eq!(selector, BROKERS);
                self.log.push("list-broker-sets".to_string());
                RestoreReply::BrokerSets(self.brokers.clone())
            }
            RestoreCommand::Job(JobStep::Create(job)) => {
                assert!(self.all_down());
                assert!(!self.active_jobs.contains_key(&job.name));
                assert!(self.volumes.contains_key(&job.claim_name));
                self.log.push(format!("create-job {}", job.name));
                self.active_jobs.insert(job.name.clone(), job.clone());
                RestoreReply::Done
            }
            RestoreCommand::Job(JobStep::Await(name)) => {
                let job = self.active_jobs.get(name).unwrap().clone();
                self.log.push(format!("await-job {}", name));
                if job.container_name == "delete-zeebe" {
                    assert_eq!(job.command[2], "rm -rf /usr/local/zeebe/data/*");
                    self.volumes.insert(job.claim_name.clone(), String::new());
                } else {
                    assert_eq!(job.container_name, "restore-zeebe");
                    assert_eq!(self.volumes[&job.claim_name], "");
                    let env = job.env.clone().unwrap();
                    let node = env
                        .iter()
                        .find(|e| e.name == "ZEEBE_BROKER_CLUSTER_NODEID")
                        .unwrap()
                        .value
                        .clone()
                        .unwrap();
                    self.volumes
                        .insert(job.claim_name.clone(), format!("{} as node {}", job.command[1], node));
                }
                self.completed_jobs.push(name.clone());
                RestoreReply::Done
            }
            RestoreCommand::Job(JobStep::Delete(name)) => {
                assert!(self.completed_jobs.contains(name));
                assert!(self.active_jobs.remove(name).is_some());
                self.log.push(format!("delete-job {}", name));
                RestoreReply::Done
            }
            RestoreCommand::Finish(_) => unreachable!(),
        }
    }

    fn run(&mut self) -> Result<(), RestoreError> {
        let (mut workflow, mut command) = restore();
        loop {
            assert!(self.steps < 1000);
            if let RestoreCommand::Finish(outcome) = command {
                assert!(workflow.is_finished());
                assert_eq!(workflow.outcome, Some(outcome));
                return outcome;
            }
            assert!(!workflow.is_finished());
            let reply = self.perform(&command);
            let next = workflow.advance(reply);
            workflow = next.0;
            command = next.1;
        }
    }
}

#[test]
fn restore_brings_back_the_newest_backup() {
    let mut c = cluster();
    let before_deployments = c.deployments.clone();
    let before_statefulsets = c.statefulsets.clone();
    assert_eq!(c.run(), Ok(()));
    assert!(c.indices.is_empty());
    assert_eq!(
        c.restored,
        vec![
            "camunda_zeebe_records_1700000000".to_string(),
            "camunda_operate_1700000000_8.1.0_part_1_of_2".to_string(),
            "camunda_operate_1700000000_8.1.0_part_2_of_2".to_string(),
        ]
    );
    for i in 0..3 {
        assert_eq!(
            c.volumes[&format!("data-zeebe-{}", i)],
            format!("--backupId=1700000000 as node {}", i)
        );
    }
    assert!(c.active_jobs.is_empty());
    assert_eq!(c.deployments, before_deployments);
    assert_eq!(c.statefulsets, before_statefulsets);
}

#[test]
fn restore_goes_through_its_phases_in_order() {
    let mut c = cluster();
    assert_eq!(c.run(), Ok(()));
    let expected = vec![
        "list-backups",
        "query-operate /actuator/backups/1700000000",
        "list-workloads",
        "scale operate 0",
        "scale tasklist 0",
        "scale zeebe-gateway 0",
        "scale elasticsearch-master 0",
        "scale zeebe 0",
        "list-indices",
        "delete-index operate-list",
        "delete-index zeebe-record-job",
        "list-repositories",
        "restore-snapshot camunda_zeebe_records_1700000000",
        "restore-snapshot camunda_operate_1700000000_8.1.0_part_1_of_2",
        "restore-snapshot camunda_operate_1700000000_8.1.0_part_2_of_2",
        "list-claims",
        "create-job delete-data-zeebe-0",
        "create-job delete-data-zeebe-1",
        "create-job delete-data-zeebe-2",
        "await-job delete-data-zeebe-0",
        "delete-job delete-data-zeebe-0",
        "await-job delete-data-zeebe-1",
        "delete-job delete-data-zeebe-1",
        "await-job delete-data-zeebe-2",
        "delete-job delete-data-zeebe-2",
        "list-broker-sets",
        "list-claims",
        "create-job restore-data-zeebe-0",
        "create-job restore-data-zeebe-1",
        "create-job restore-data-zeebe-2",
        "await-job restore-data-zeebe-0",
        "delete-job restore-data-zeebe-0",
        "await-job restore-data-zeebe-1",
        "delete-job restore-data-zeebe-1",
        "await-job restore-data-zeebe-2",
        "delete-job restore-data-zeebe-2",
        "scale operate 1",
        "scale tasklist 0",
        "scale zeebe-gateway 2",
        "scale elasticsearch-master 2",
        "scale zeebe 3",
    ];
    assert_eq!(c.log, expected);
}

#[test]
fn restore_of_an_empty_platform_only_asks() {
    let mut c = cluster();
    c.deployments.clear();
    c.statefulsets.clear();
    c.indices.clear();
    c.operate_snapshots.clear();
    c.claims.clear();
    c.volumes.clear();
    assert_eq!(c.run(), Ok(()));
    assert_eq!(
        c.log,
        vec![
            "list-backups",
            "query-operate /actuator/backups/1700000000",
            "list-workloads",
            "list-indices",
            "list-repositories",
            "restore-snapshot camunda_zeebe_records_1700000000",
            "list-claims",
            "list-broker-sets",
            "list-claims",
        ]
    );
}

#[test]
fn any_failed_command_ends_the_restore_and_nothing_is_undone() {
    let mut clean = cluster();
    assert_eq!(clean.run(), Ok(()));
    let total = clean.log.len();
    let phases = |entry: &str| -> RestorePhase {
        let word = entry.split(' ').next().unwrap();
        match word {
            "list-backups" => RestorePhase::ResolvingBackup,
            "query-operate" => RestorePhase::QueryingOperate,
            "list-workloads" => RestorePhase::ListingWorkloads,
            "list-indices" => RestorePhase::ListingIndices,
            "delete-index" => RestorePhase::DeletingIndices,
            "list-repositories" => RestorePhase::ListingRepositories,
            "restore-snapshot" => RestorePhase::RestoringIndices,
            "list-broker-sets" => RestorePhase::ListingBrokerSets,
            _ => RestorePhase::Finished,
        }
    };
    for at in 0..total {
        let mut c = cluster();
        c.fail_at = Some(at);
        let outcome = c.run();
        assert_eq!(c.log.len(), at + 1);
        assert_eq!(c.log[..at], clean.log[..at]);
        assert_eq!(c.log[at], "failure");
        match outcome {
            Err(RestoreError::CommandFailed(phase)) => {
                let expected = phases(&clean.log[at]);
                if expected != RestorePhase::Finished {
                    assert_eq!(phase, expected);
                }
            }
            other => panic!("unexpected outcome {:?}", other),
        }
        // between the shutdown and the restart nothing runs
        if at > 8 && at <= 36 {
            assert!(c.all_down());
        }
    }
}

#[test]
fn restore_needs_a_completed_backup() {
    let mut c = cluster();
    c.zeebe_backups = vec![BackupDescriptor {
        backup_id: 5,
        state: BackupState::InProgress,
        details: vec![],
    }];
    assert_eq!(c.run(), Err(RestoreError::NoCompletedBackup));
    assert_eq!(c.log, vec!["list-backups"]);
}

#[test]
fn restore_reports_incomplete_workloads_before_touching_anything() {
    let (w, _) = RestoreWorkflow::start();
    let (w, _) = w.advance(RestoreReply::ZeebeBackups(vec![BackupDescriptor {
        backup_id: 5,
        state: BackupState::Completed,
        details: vec![],
    }]));
    assert_eq!(w.backup_id, Some(5));
    let (w, c) = w.advance(RestoreReply::OperateBackup(BackupDescriptor {
        backup_id: 5,
        state: BackupState::Completed,
        details: vec![],
    }));
    assert_eq!(c, RestoreCommand::ListWorkloads(PLATFORM.to_string()));
    assert_eq!(w.backup, Some(Backup { id: 5, snapshots: vec!["camunda_zeebe_records_5".to_string()] }));
    let (w, c) = w.advance(RestoreReply::Workloads(
        vec![Workload { name: Some("a".to_string()), replicas: Some(1) }],
        vec![Workload { name: None, replicas: Some(1) }],
    ));
    assert!(w.is_finished());
    assert_eq!(c, RestoreCommand::Finish(Err(RestoreError::Workloads(AppsError::MissingName))));
}

#[test]
fn restore_reports_what_stops_it() {
    let mut c = cluster();
    c.indices.push("bad index".to_string());
    assert_eq!(c.run(), Err(RestoreError::Index(RequestError::InvalidTarget)));
    assert_eq!(c.indices.len(), 3);

    let mut c = cluster();
    c.repositories.clear();
    assert_eq!(c.run(), Err(RestoreError::Snapshot(SnapshotError::NoRepository)));
    assert!(c.restored.is_empty());

    let mut c = cluster();
    c.operate_snapshots.push("bad snapshot".to_string());
    assert_eq!(c.run(), Err(RestoreError::Snapshot(SnapshotError::InvalidTarget)));
    assert!(c.restored.is_empty());

    let mut c = cluster();
    c.brokers.clear();
    assert_eq!(c.run(), Err(RestoreError::NoBrokerSet));
    assert!(c.volumes.values().all(|v| v.is_empty()));

    let mut c = cluster();
    c.brokers = vec![BrokerSet { pod_spec: None }];
    assert_eq!(c.run(), Err(RestoreError::Job(JobError::MissingPodSpec)));

    let mut c = cluster();
    c.claims = vec!["data-zeebe-0".to_string(), "nodash".to_string()];
    c.volumes.insert("nodash".to_string(), "stale".to_string());
    assert_eq!(c.run(), Err(RestoreError::Job(JobError::MissingNodeId)));
    assert_eq!(c.volumes["nodash"], "");
    assert!(!c.log.iter().any(|entry| entry.starts_with("create-job restore-")));
    assert!(c.all_down());
}

#[test]
fn a_reply_that_does_not_fit_ends_the_restore() {
    let (w, _) = RestoreWorkflow::start();
    let (w, c) = w.advance(RestoreReply::Done);
    assert!(w.is_finished());
    assert_eq!(
        c,
        RestoreCommand::Finish(Err(RestoreError::UnexpectedReply(RestorePhase::ResolvingBackup)))
    );
    let (w, c) = w.advance(RestoreReply::Claims(vec![]));
    assert!(w.is_finished());
    assert_eq!(
        c,
        RestoreCommand::Finish(Err(RestoreError::UnexpectedReply(RestorePhase::ResolvingBackup)))
    );

    let (w, _) = RestoreWorkflow::start();
    let (w, c) = w.advance(RestoreReply::Indices(vec![]));
    assert!(w.is_finished());
    assert_eq!(
        c,
        RestoreCommand::Finish(Err(RestoreError::UnexpectedReply(RestorePhase::ResolvingBackup)))
    );
}

#[test]
fn a_workflow_without_its_data_is_invalid() {
    let w = RestoreWorkflow {
        phase: RestorePhase::QueryingOperate,
        backup_id: None,
        backup: None,
        apps: None,
        brokers: None,
        pending: vec![],
        outcome: None,
    };
    let (w, c) = w.advance(RestoreReply::OperateBackup(BackupDescriptor {
        backup_id: 1,
        state: BackupState::Completed,
        details: vec![],
    }));
    assert!(w.is_finished());
    assert_eq!(c, RestoreCommand::Finish(Err(RestoreError::InvalidState)));
}

#[test]
fn index_plans() {
    let plan = delete_indices(&vec!["a".to_string(), "b".to_string()]).unwrap();
    assert_eq!(plan.len(), 2);
    assert_eq!(plan[0].request.method, Method::Delete);
    assert_eq!(plan[0].request.path, "/a");
    assert_eq!(plan[1].request.path, "/b");
    assert_eq!(
        delete_indices(&vec!["a".to_string(), "b c".to_string()]),
        Err(RequestError::InvalidTarget)
    );
    assert_eq!(delete_indices(&vec![]), Ok(vec![]));

    let repos = vec![NamedRepository {
        name: "r".to_string(),
        settings: SnapshotRepository { kind: "s3".to_string() },
    }];
    let backup = Backup { id: 1, snapshots: vec!["x".to_string(), "y".to_string()] };
    let plan = restore_indices(&repos, &backup).unwrap();
    assert_eq!(plan.len(), 2);
    assert_eq!(plan[0].request.path, "/_snapshot/r/x/_restore?wait_for_completion=true");
    assert_eq!(plan[1].request.path, "/_snapshot/r/y/_restore?wait_for_completion=true");
    assert_eq!(plan[1].request.method, Method::Post);
    assert_eq!(restore_indices(&vec![], &backup), Err(SnapshotError::NoRepository));
    assert_eq!(restore_indices(&vec![], &Backup { id: 1, snapshots: vec![] }), Ok(vec![]));
}

#[test]
fn volume_plans() {
    let claims =
        vec![Claim { name: Some("z-0".to_string()) }, Claim { name: Some("z-1".to_string()) }];
    let wipe = delete_zeebe_data(&claims).unwrap();
    assert_eq!(wipe.len(), 6);
    assert!(matches!(&wipe[0], JobStep::Create(job) if job.name == "delete-z-0"));
    assert!(matches!(&wipe[1], JobStep::Create(job) if job.name == "delete-z-1"));
    assert_eq!(wipe[2], JobStep::Await("delete-z-0".to_string()));
    assert_eq!(wipe[3], JobStep::Delete("delete-z-0".to_string()));
    assert_eq!(wipe[4], JobStep::Await("delete-z-1".to_string()));
    assert_eq!(wipe[5], JobStep::Delete("delete-z-1".to_string()));

    let backup = Backup { id: 8, snapshots: vec![] };
    let fill = restore_zeebe_data(&backup, &claims, &broker_set()).unwrap();
    assert_eq!(fill.len(), 6);
    assert!(matches!(&fill[1], JobStep::Create(job) if job.name == "restore-z-1"
        && job.command[1] == "--backupId=8"));
    assert_eq!(fill[5], JobStep::Delete("restore-z-1".to_string()));

    let broken = vec![Claim { name: Some("z-0".to_string()) }, Claim { name: None }];
    assert_eq!(delete_zeebe_data(&broken), Err(JobError::MissingClaimName));
    assert_eq!(
        restore_zeebe_data(&backup, &broken, &broker_set()),
        Err(JobError::MissingClaimName)
    );
    assert_eq!(delete_zeebe_data(&vec![]), Ok(vec![]));
}
