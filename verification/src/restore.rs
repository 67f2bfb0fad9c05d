//! Restoring the platform from its newest backup.

use crate::apps::{
    listed_scale, plan_view, scale_map, shutdown_apps, shutdown_fault, shutdown_plan, start_apps,
    start_plan, AppsError, RestartableApps, ScaleCommand, ScaleCommandView, Workload,
};
use crate::common::{
    elasticsearch_request, operate_request, requests_view, zeebe_request, ComponentRequest,
    ComponentRequestView,
};
use crate::components::{list_request, query_request};
use crate::elasticsearch::{
    delete_index, delete_index_outcome, get_all_indices, list_snapshot_repositories,
    records_snapshot_name, restore_snapshot, restore_snapshot_outcome, zeebe_records_snapshot,
    NamedRepository, SnapshotError,
};
use crate::http::{bare_request, Method, RequestError};
use crate::jobs::{
    deletion_job_for, job_steps, jobs_view, plan_jobs, restoration_job_for, steps_view,
    zeebe_data_deletion_job, zeebe_data_restoration_job, BrokerSet, Claim, JobError, JobKind,
    JobStep, JobStepView, VolumeJob, VolumeJobView,
};
use crate::list::{is_newest_completed, newest_completed};
use crate::results::{gather, lemma_gather_fails, lemma_gather_step};
use crate::text::strings_view;
use crate::types::{BackupDescriptor, OperateDetails, ZeebeDetails};
use vstd::prelude::*;

verus! {

/// The backup that a restore works on: its identifier and the search-engine
/// snapshots that belong to it, each of which is restored.
#[derive(Clone, Debug, PartialEq, Eq)]
pub struct Backup {
    pub id: u64,
    pub snapshots: Vec<String>,
}

pub struct BackupView {
    pub id: u64,
    pub snapshots: Seq<Seq<char>>,
}

impl View for Backup {
    type V = BackupView;

    open spec fn view(&self) -> BackupView {
        BackupView { id: self.id, snapshots: strings_view(self.snapshots@) }
    }
}

/// The newest backup that the workflow engine reports as `Completed`. The
/// query service is not asked whether it agrees.
pub fn find_newest_backup(zeebe_backups: &Vec<BackupDescriptor<ZeebeDetails>>) -> (newest: Option<
    u64,
>)
    ensures
        is_newest_completed(zeebe_backups@, newest),
{
    newest_completed(zeebe_backups)
}

/// The snapshots that the query service reports for its backup.
pub open spec fn reported_snapshots(details: Seq<OperateDetails>) -> Seq<Seq<char>> {
    Seq::new(details.len(), |i: int| details[i].snapshot_name@)
}

/// What is restored for the backup `id`: the snapshot of the workflow
/// engine's exported records, then the snapshots that the query service
/// reports.
pub open spec fn restore_set_of(id: u64, operate_backup: BackupDescriptor<OperateDetails>) -> BackupView {
    BackupView {
        id,
        snapshots: seq![records_snapshot_name(id)] + reported_snapshots(operate_backup.details@),
    }
}

/// Puts together what a restore of the backup `id` works on, given the
/// query service's record of that backup.
pub fn restore_set(id: u64, operate_backup: &BackupDescriptor<OperateDetails>) -> (backup: Backup)
    ensures
        backup@ == restore_set_of(id, *operate_backup),
{
    let mut snapshots: Vec<String> = Vec::new();
    snapshots.push(zeebe_records_snapshot(id));
    let mut i: usize = 0;
    while i < operate_backup.details.len()
        invariant
            i <= operate_backup.details.len(),
            snapshots@.len() == i + 1,
            snapshots@[0]@ == records_snapshot_name(id),
            forall|k: int|
                0 <= k < i ==> (#[trigger] snapshots@[k + 1])@
                    == operate_backup.details@[k].snapshot_name@,
        decreases operate_backup.details.len() - i,
    {
        snapshots.push(operate_backup.details[i].snapshot_name.clone());
        i += 1;
    }
    let backup = Backup { id, snapshots };
    proof {
        let expected = restore_set_of(id, *operate_backup).snapshots;
        assert forall|k: int| 0 <= k < expected.len() implies backup@.snapshots[k] == expected[k] by {
            if k > 0 {
                assert(backup.snapshots@[(k - 1) + 1]@ == operate_backup.details@[k - 1].snapshot_name@);
            }
        }
        assert(backup@.snapshots =~= expected);
    }
    backup
}

/// Whether the requests of `result` are `expected`, each taken by its view.
pub open spec fn are_requests<E>(
    result: Result<Vec<ComponentRequest>, E>,
    expected: Result<Seq<ComponentRequestView>, E>,
) -> bool {
    match result {
        Ok(requests) => expected == Ok::<Seq<ComponentRequestView>, E>(requests_view(requests@)),
        Err(e) => expected == Err::<Seq<ComponentRequestView>, E>(e),
    }
}

/// Whether the steps of `result` are `expected`, each taken by its view.
pub open spec fn are_steps<E>(result: Result<Vec<JobStep>, E>, expected: Result<Seq<JobStepView>, E>) -> bool {
    match result {
        Ok(steps) => expected == Ok::<Seq<JobStepView>, E>(steps_view(steps@)),
        Err(e) => expected == Err::<Seq<JobStepView>, E>(e),
    }
}

/// One delete request per index, in the order of the listing; or the error
/// of the first index whose name gives no valid target.
pub open spec fn index_reset_plan(indices: Seq<String>) -> Result<Seq<ComponentRequestView>, RequestError> {
    gather(Seq::new(indices.len(), |i: int| delete_index_outcome(indices[i]@)))
}

/// Plans the index reset: every index of the listing is deleted, so that
/// no restored index meets a live one of the same name.
pub fn delete_indices(indices: &Vec<String>) -> (plan: Result<Vec<ComponentRequest>, RequestError>)
    ensures
        are_requests(plan, index_reset_plan(indices@)),
{
    let ghost outcomes = Seq::new(indices@.len(), |i: int| delete_index_outcome(indices@[i]@));
    let mut requests: Vec<ComponentRequest> = Vec::new();
    let mut i: usize = 0;
    assert(outcomes.take(0) =~= Seq::<Result<ComponentRequestView, RequestError>>::empty());
    assert(requests_view(requests@) =~= Seq::<ComponentRequestView>::empty());
    while i < indices.len()
        invariant
            i <= indices.len(),
            outcomes == Seq::new(indices@.len(), |i: int| delete_index_outcome(indices@[i]@)),
            gather(outcomes.take(i as int)) == Ok::<Seq<ComponentRequestView>, RequestError>(
                requests_view(requests@),
            ),
        decreases indices.len() - i,
    {
        let ghost before = requests_view(requests@);
        proof {
            lemma_gather_step(outcomes, i as int);
        }
        match delete_index(indices[i].as_str()) {
            Ok(request) => {
                requests.push(request);
                assert(requests_view(requests@) =~= before.push(request@));
            },
            Err(e) => {
                proof {
                    lemma_gather_fails(outcomes, i as int + 1);
                }
                return Err(e);
            },
        }
        i += 1;
    }
    assert(outcomes.take(i as int) =~= outcomes);
    Ok(requests)
}

/// One restore request per snapshot of the backup, in their order, each for
/// the repository picked from `repositories`; or the reason why the first
/// of them that cannot be made cannot.
pub open spec fn index_restore_plan(repositories: Seq<NamedRepository>, backup: Backup) -> Result<
    Seq<ComponentRequestView>,
    SnapshotError,
> {
    gather(
        Seq::new(
            backup.snapshots@.len(),
            |i: int| restore_snapshot_outcome(repositories, backup.snapshots@[i]@),
        ),
    )
}

/// Plans the index restore: every snapshot of the backup is restored, one
/// after the other.
pub fn restore_indices(repositories: &Vec<NamedRepository>, backup: &Backup) -> (plan: Result<
    Vec<ComponentRequest>,
    SnapshotError,
>)
    ensures
        are_requests(plan, index_restore_plan(repositories@, *backup)),
{
    let ghost outcomes = Seq::new(
        backup.snapshots@.len(),
        |i: int| restore_snapshot_outcome(repositories@, backup.snapshots@[i]@),
    );
    let mut requests: Vec<ComponentRequest> = Vec::new();
    let mut i: usize = 0;
    assert(outcomes.take(0) =~= Seq::<Result<ComponentRequestView, SnapshotError>>::empty());
    assert(requests_view(requests@) =~= Seq::<ComponentRequestView>::empty());
    while i < backup.snapshots.len()
        invariant
            i <= backup.snapshots.len(),
            outcomes == Seq::new(
                backup.snapshots@.len(),
                |i: int| restore_snapshot_outcome(repositories@, backup.snapshots@[i]@),
            ),
            gather(outcomes.take(i as int)) == Ok::<Seq<ComponentRequestView>, SnapshotError>(
                requests_view(requests@),
            ),
        decreases backup.snapshots.len() - i,
    {
        let ghost before = requests_view(requests@);
        proof {
            lemma_gather_step(outcomes, i as int);
        }
        match restore_snapshot(repositories, backup.snapshots[i].as_str()) {
            Ok(request) => {
                requests.push(request);
                assert(requests_view(requests@) =~= before.push(request@));
            },
            Err(e) => {
                proof {
                    lemma_gather_fails(outcomes, i as int + 1);
                }
                return Err(e);
            },
        }
        i += 1;
    }
    assert(outcomes.take(i as int) =~= outcomes);
    Ok(requests)
}

/// The steps that wipe the volume of every claim: one job per claim, all
/// created before the first is awaited; or the error of the first claim
/// that no job can be built for.
pub open spec fn volume_wipe_plan(claims: Seq<Claim>) -> Result<Seq<JobStepView>, JobError> {
    match gather(Seq::new(claims.len(), |i: int| deletion_job_for(claims[i]))) {
        Ok(jobs) => Ok(job_steps(JobKind::Delete, jobs)),
        Err(e) => Err(e),
    }
}

/// Plans the volume wipe for the brokers' claims.
pub fn delete_zeebe_data(claims: &Vec<Claim>) -> (plan: Result<Vec<JobStep>, JobError>)
    ensures
        are_steps(plan, volume_wipe_plan(claims@)),
{
    let ghost outcomes = Seq::new(claims@.len(), |i: int| deletion_job_for(claims@[i]));
    let mut jobs: Vec<VolumeJob> = Vec::new();
    let mut i: usize = 0;
    assert(outcomes.take(0) =~= Seq::<Result<VolumeJobView, JobError>>::empty());
    assert(jobs_view(jobs@) =~= Seq::<VolumeJobView>::empty());
    while i < claims.len()
        invariant
            i <= claims.len(),
            outcomes == Seq::new(claims@.len(), |i: int| deletion_job_for(claims@[i])),
            gather(outcomes.take(i as int)) == Ok::<Seq<VolumeJobView>, JobError>(
                jobs_view(jobs@),
            ),
        decreases claims.len() - i,
    {
        let ghost before = jobs_view(jobs@);
        proof {
            lemma_gather_step(outcomes, i as int);
        }
        match zeebe_data_deletion_job(&claims[i]) {
            Ok(job) => {
                jobs.push(job);
                assert(jobs_view(jobs@) =~= before.push(job@));
            },
            Err(e) => {
                proof {
                    lemma_gather_fails(outcomes, i as int + 1);
                }
                return Err(e);
            },
        }
        i += 1;
    }
    assert(outcomes.take(i as int) =~= outcomes);
    Ok(plan_jobs(JobKind::Delete, jobs))
}

/// The steps that restore the backup onto the volume of every claim: one
/// job per claim, all created before the first is awaited; or the error of
/// the first claim that no job can be built for.
pub open spec fn volume_restore_plan(backup_id: u64, claims: Seq<Claim>, brokers: BrokerSet) -> Result<
    Seq<JobStepView>,
    JobError,
> {
    match gather(Seq::new(claims.len(), |i: int| restoration_job_for(backup_id, claims[i], brokers))) {
        Ok(jobs) => Ok(job_steps(JobKind::Restore, jobs)),
        Err(e) => Err(e),
    }
}

/// Plans the volume restore for the brokers' claims, with jobs modelled on
/// the brokers' stateful set.
pub fn restore_zeebe_data(backup: &Backup, claims: &Vec<Claim>, brokers: &BrokerSet) -> (plan: Result<
    Vec<JobStep>,
    JobError,
>)
    ensures
        are_steps(plan, volume_restore_plan(backup.id, claims@, *brokers)),
{
    let ghost outcomes = Seq::new(
        claims@.len(),
        |i: int| restoration_job_for(backup.id, claims@[i], *brokers),
    );
    let mut jobs: Vec<VolumeJob> = Vec::new();
    let mut i: usize = 0;
    assert(outcomes.take(0) =~= Seq::<Result<VolumeJobView, JobError>>::empty());
    assert(jobs_view(jobs@) =~= Seq::<VolumeJobView>::empty());
    while i < claims.len()
        invariant
            i <= claims.len(),
            outcomes == Seq::new(
                claims@.len(),
                |i: int| restoration_job_for(backup.id, claims@[i], *brokers),
            ),
            gather(outcomes.take(i as int)) == Ok::<Seq<VolumeJobView>, JobError>(
                jobs_view(jobs@),
            ),
        decreases claims.len() - i,
    {
        let ghost before = jobs_view(jobs@);
        proof {
            lemma_gather_step(outcomes, i as int);
        }
        match zeebe_data_restoration_job(backup, &claims[i], brokers) {
            Ok(job) => {
                jobs.push(job);
                assert(jobs_view(jobs@) =~= before.push(job@));
            },
            Err(e) => {
                proof {
                    lemma_gather_fails(outcomes, i as int + 1);
                }
                return Err(e);
            },
        }
        i += 1;
    }
    assert(outcomes.take(i as int) =~= outcomes);
    Ok(plan_jobs(JobKind::Restore, jobs))
}

/// Where a restore stands.
#[derive(Clone, Copy, Debug, PartialEq, Eq, Structural, Hash)]
pub enum RestorePhase {
    /// The workflow engine was asked for its backups.
    ResolvingBackup,
    /// The query service was asked for its record of the chosen backup.
    QueryingOperate,
    /// The cluster was asked for the platform's workloads.
    ListingWorkloads,
    /// The workloads are being scaled to zero.
    ShuttingDown,
    /// The search engine was asked for its indices.
    ListingIndices,
    /// The indices are being deleted.
    DeletingIndices,
    /// The search engine was asked for its snapshot repositories.
    ListingRepositories,
    /// The snapshots of the backup are being restored.
    RestoringIndices,
    /// The cluster was asked for the brokers' claims, to wipe their volumes.
    ListingClaimsToWipe,
    /// The wipe jobs are running.
    WipingVolumes,
    /// The cluster was asked for the brokers' stateful set.
    ListingBrokerSets,
    /// The cluster was asked for the brokers' claims, to restore their
    /// volumes.
    ListingClaimsToRestore,
    /// The restore jobs are running.
    RestoringVolumes,
    /// The workloads are being scaled back.
    Restarting,
    /// The restore has ended.
    Finished,
}

/// Why a restore ended early.
#[derive(Clone, Copy, Debug, PartialEq, Eq, Structural, Hash)]
pub enum RestoreError {
    /// The workflow engine reports no completed backup.
    NoCompletedBackup,
    /// The command given out in this phase failed.
    CommandFailed(RestorePhase),
    /// What came back is no answer to the command given out in this phase.
    UnexpectedReply(RestorePhase),
    /// The workflow holds no data for the phase that it claims to be in.
    InvalidState,
    /// A workload could not be recorded.
    Workloads(AppsError),
    /// An index cannot be addressed.
    Index(RequestError),
    /// A snapshot cannot be restored.
    Snapshot(SnapshotError),
    /// A volume job cannot be built.
    Job(JobError),
    /// The cluster lists no stateful set for the brokers.
    NoBrokerSet,
}

/// What the caller is to do next.
#[derive(Debug, PartialEq, Eq)]
pub enum RestoreCommand {
    /// Send the request and report the backups that the answer lists.
    ListZeebeBackups(ComponentRequest),
    /// Send the request and report the backup that the answer describes.
    QueryOperateBackup(ComponentRequest),
    /// List the deployments and stateful sets with this label.
    ListWorkloads(String),
    /// Set the replica count of a workload.
    Scale(ScaleCommand),
    /// Send the request and report the names of the indices in the answer.
    ListIndices(ComponentRequest),
    /// Send the request and report the repositories in the answer.
    ListRepositories(ComponentRequest),
    /// Send the request; only its success matters.
    Send(ComponentRequest),
    /// List the persistent volume claims with this label.
    ListClaims(String),
    /// List the stateful sets with this label.
    ListBrokerSets(String),
    /// Carry out a step of a volume job.
    Job(JobStep),
    /// Stop: the restore has ended with this outcome.
    Finish(Result<(), RestoreError>),
}

pub enum RestoreCommandView {
    ListZeebeBackups(ComponentRequestView),
    QueryOperateBackup(ComponentRequestView),
    ListWorkloads(Seq<char>),
    Scale(ScaleCommandView),
    ListIndices(ComponentRequestView),
    ListRepositories(ComponentRequestView),
    Send(ComponentRequestView),
    ListClaims(Seq<char>),
    ListBrokerSets(Seq<char>),
    Job(JobStepView),
    Finish(Result<(), RestoreError>),
}

impl View for RestoreCommand {
    type V = RestoreCommandView;

    open spec fn view(&self) -> RestoreCommandView {
        match self {
            RestoreCommand::ListZeebeBackups(r) => RestoreCommandView::ListZeebeBackups(r@),
            RestoreCommand::QueryOperateBackup(r) => RestoreCommandView::QueryOperateBackup(r@),
            RestoreCommand::ListWorkloads(s) => RestoreCommandView::ListWorkloads(s@),
            RestoreCommand::Scale(c) => RestoreCommandView::Scale(c@),
            RestoreCommand::ListIndices(r) => RestoreCommandView::ListIndices(r@),
            RestoreCommand::ListRepositories(r) => RestoreCommandView::ListRepositories(r@),
            RestoreCommand::Send(r) => RestoreCommandView::Send(r@),
            RestoreCommand::ListClaims(s) => RestoreCommandView::ListClaims(s@),
            RestoreCommand::ListBrokerSets(s) => RestoreCommandView::ListBrokerSets(s@),
            RestoreCommand::Job(j) => RestoreCommandView::Job(j@),
            RestoreCommand::Finish(o) => RestoreCommandView::Finish(*o),
        }
    }
}

/// What came of the last command.
#[derive(Clone, Debug, PartialEq, Eq)]
pub enum RestoreReply {
    /// The command failed: the component or the cluster could not be
    /// reached, answered with an error, or sent what could not be read.
    Failed,
    /// The command succeeded and has nothing to report.
    Done,
    ZeebeBackups(Vec<BackupDescriptor<ZeebeDetails>>),
    OperateBackup(BackupDescriptor<OperateDetails>),
    Workloads(Vec<Workload>, Vec<Workload>),
    Indices(Vec<String>),
    Repositories(Vec<NamedRepository>),
    Claims(Vec<Claim>),
    BrokerSets(Vec<BrokerSet>),
}

/// A restore in progress.
///
/// The workflow is driven from outside: `start` gives the first command,
/// and each call of `advance` takes what came of the last command and gives
/// the next one, until that is `Finish`.
#[derive(Debug, PartialEq, Eq)]
pub struct RestoreWorkflow {
    pub phase: RestorePhase,
    /// The backup chosen for the restore.
    pub backup_id: Option<u64>,
    /// What is restored.
    pub backup: Option<Backup>,
    /// What the workloads ran with before the shutdown.
    pub apps: Option<RestartableApps>,
    /// The stateful set that the restore jobs are modelled on.
    pub brokers: Option<BrokerSet>,
    /// What is left of the current phase's plan. The next command is the
    /// last one.
    pub pending: Vec<RestoreCommand>,
    /// How the restore ended.
    pub outcome: Option<Result<(), RestoreError>>,
}

/// Label of everything that belongs to the platform.
pub open spec fn platform_selector() -> Seq<char> {
    "app.kubernetes.io/part-of=camunda-platform"@
}

/// Label of what belongs to the workflow engine's brokers.
pub open spec fn broker_selector() -> Seq<char> {
    "app.kubernetes.io/component=zeebe-broker"@
}

/// The commands that are left, the next one first.
pub open spec fn remaining(pending: Seq<RestoreCommand>) -> Seq<RestoreCommandView> {
    Seq::new(pending.len(), |i: int| pending[pending.len() - 1 - i]@)
}

/// The orders of a plan as commands.
pub open spec fn scale_commands(plan: Seq<ScaleCommandView>) -> Seq<RestoreCommandView> {
    Seq::new(plan.len(), |i: int| RestoreCommandView::Scale(plan[i]))
}

/// The requests of a plan as commands.
pub open spec fn send_commands(plan: Seq<ComponentRequestView>) -> Seq<RestoreCommandView> {
    Seq::new(plan.len(), |i: int| RestoreCommandView::Send(plan[i]))
}

/// The job steps of a plan as commands.
pub open spec fn job_commands(plan: Seq<JobStepView>) -> Seq<RestoreCommandView> {
    Seq::new(plan.len(), |i: int| RestoreCommandView::Job(plan[i]))
}

fn stack_scales(plan: Vec<ScaleCommand>) -> (stack: Vec<RestoreCommand>)
    ensures
        remaining(stack@) == scale_commands(plan_view(plan@)),
{
    let ghost all = plan_view(plan@);
    let mut plan = plan;
    let mut stack: Vec<RestoreCommand> = Vec::new();
    while plan.len() > 0
        invariant
            plan@.len() + stack@.len() == all.len(),
            forall|k: int| 0 <= k < plan@.len() ==> (#[trigger] plan@[k])@ == all[k],
            forall|k: int|
                0 <= k < stack@.len() ==> (#[trigger] stack@[k])@ == RestoreCommandView::Scale(
                    all[all.len() - 1 - k],
                ),
        decreases plan.len(),
    {
        let order = plan.pop().unwrap();
        stack.push(RestoreCommand::Scale(order));
    }
    assert(remaining(stack@) =~= scale_commands(all));
    stack
}

fn stack_requests(plan: Vec<ComponentRequest>) -> (stack: Vec<RestoreCommand>)
    ensures
        remaining(stack@) == send_commands(requests_view(plan@)),
{
    let ghost all = requests_view(plan@);
    let mut plan = plan;
    let mut stack: Vec<RestoreCommand> = Vec::new();
    while plan.len() > 0
        invariant
            plan@.len() + stack@.len() == all.len(),
            forall|k: int| 0 <= k < plan@.len() ==> (#[trigger] plan@[k])@ == all[k],
            forall|k: int|
                0 <= k < stack@.len() ==> (#[trigger] stack@[k])@ == RestoreCommandView::Send(
                    all[all.len() - 1 - k],
                ),
        decreases plan.len(),
    {
        let request = plan.pop().unwrap();
        stack.push(RestoreCommand::Send(request));
    }
    assert(remaining(stack@) =~= send_commands(all));
    stack
}

fn stack_jobs(plan: Vec<JobStep>) -> (stack: Vec<RestoreCommand>)
    ensures
        remaining(stack@) == job_commands(steps_view(plan@)),
{
    let ghost all = steps_view(plan@);
    let mut plan = plan;
    let mut stack: Vec<RestoreCommand> = Vec::new();
    while plan.len() > 0
        invariant
            plan@.len() + stack@.len() == all.len(),
            forall|k: int| 0 <= k < plan@.len() ==> (#[trigger] plan@[k])@ == all[k],
            forall|k: int|
                0 <= k < stack@.len() ==> (#[trigger] stack@[k])@ == RestoreCommandView::Job(
                    all[all.len() - 1 - k],
                ),
        decreases plan.len(),
    {
        let step = plan.pop().unwrap();
        stack.push(RestoreCommand::Job(step));
    }
    assert(remaining(stack@) =~= job_commands(all));
    stack
}

/// The restore has ended with `outcome`.
pub open spec fn ends(post: RestoreWorkflow, command: RestoreCommand, outcome: Result<(), RestoreError>) -> bool {
    &&& post.phase == RestorePhase::Finished
    &&& post.outcome == Some(outcome)
    &&& post.pending@.len() == 0
    &&& command@ == RestoreCommandView::Finish(outcome)
}

/// The workflow has given out `expected` and waits in `phase` for what
/// comes of it.
pub open spec fn asks(
    post: RestoreWorkflow,
    command: RestoreCommand,
    phase: RestorePhase,
    expected: RestoreCommandView,
) -> bool {
    &&& post.phase == phase
    &&& post.outcome is None
    &&& post.pending@.len() == 0
    &&& command@ == expected
}

/// The workflow is in `phase` and has given out the first command of
/// `plan`; the others are left to do.
pub open spec fn carries_out(
    post: RestoreWorkflow,
    command: RestoreCommand,
    phase: RestorePhase,
    plan: Seq<RestoreCommandView>,
) -> bool {
    &&& plan.len() > 0
    &&& post.phase == phase
    &&& post.outcome is None
    &&& command@ == plan[0]
    &&& remaining(post.pending@) == plan.skip(1)
}

/// What the workflow does once the plan of `phase` is carried out: it goes
/// on to the next phase, and ends after the last.
pub open spec fn goes_on(
    apps: Option<RestartableApps>,
    post: RestoreWorkflow,
    command: RestoreCommand,
    phase: RestorePhase,
) -> bool {
    match phase {
        RestorePhase::ShuttingDown => asks(
            post,
            command,
            RestorePhase::ListingIndices,
            RestoreCommandView::ListIndices(
                elasticsearch_request(bare_request(Method::Get, "/*"@)),
            ),
        ),
        RestorePhase::DeletingIndices => asks(
            post,
            command,
            RestorePhase::ListingRepositories,
            RestoreCommandView::ListRepositories(
                elasticsearch_request(bare_request(Method::Get, "/_snapshot/_all"@)),
            ),
        ),
        RestorePhase::RestoringIndices => asks(
            post,
            command,
            RestorePhase::ListingClaimsToWipe,
            RestoreCommandView::ListClaims(broker_selector()),
        ),
        RestorePhase::WipingVolumes => asks(
            post,
            command,
            RestorePhase::ListingBrokerSets,
            RestoreCommandView::ListBrokerSets(broker_selector()),
        ),
        RestorePhase::RestoringVolumes => match apps {
            Some(record) => if start_plan(record).len() > 0 {
                carries_out(
                    post,
                    command,
                    RestorePhase::Restarting,
                    scale_commands(start_plan(record)),
                )
            } else {
                ends(post, command, Ok(()))
            },
            None => ends(post, command, Err(RestoreError::InvalidState)),
        },
        RestorePhase::Restarting => ends(post, command, Ok(())),
        _ => ends(post, command, Err(RestoreError::InvalidState)),
    }
}

/// The workflow carries out `plan` in `phase`, one command at a time, and,
/// where nothing is left of it, goes on.
pub open spec fn runs(
    apps: Option<RestartableApps>,
    post: RestoreWorkflow,
    command: RestoreCommand,
    phase: RestorePhase,
    plan: Seq<RestoreCommandView>,
) -> bool {
    if plan.len() > 0 {
        carries_out(post, command, phase, plan)
    } else {
        goes_on(apps, post, command, phase)
    }
}

/// The step leaves what the workflow has gathered as it was.
pub open spec fn keeps(pre: RestoreWorkflow, post: RestoreWorkflow) -> bool {
    &&& post.backup_id == pre.backup_id
    &&& post.backup == pre.backup
    &&& post.apps == pre.apps
    &&& post.brokers == pre.brokers
}

/// A phase in which a plan is carried out.
pub open spec fn is_running(phase: RestorePhase) -> bool {
    phase == RestorePhase::ShuttingDown || phase == RestorePhase::DeletingIndices || phase
        == RestorePhase::RestoringIndices || phase == RestorePhase::WipingVolumes || phase
        == RestorePhase::RestoringVolumes || phase == RestorePhase::Restarting
}

/// One step of a restore: what the workflow `pre` makes of `reply`, as the
/// workflow `post` that it becomes and the `command` that it gives out.
///
/// A failed command ends the restore, whatever the phase, and so does a
/// reply that is no answer to the command given out. Nothing is undone.
pub open spec fn restore_step(
    pre: RestoreWorkflow,
    reply: RestoreReply,
    post: RestoreWorkflow,
    command: RestoreCommand,
) -> bool {
    if pre.phase == RestorePhase::Finished {
        post == pre && command@ == RestoreCommandView::Finish(
            match pre.outcome {
                Some(outcome) => outcome,
                None => Err(RestoreError::InvalidState),
            },
        )
    } else if reply is Failed {
        keeps(pre, post) && ends(post, command, Err(RestoreError::CommandFailed(pre.phase)))
    } else if is_running(pre.phase) {
        keeps(pre, post) && if reply is Done {
            runs(pre.apps, post, command, pre.phase, remaining(pre.pending@))
        } else {
            ends(post, command, Err(RestoreError::UnexpectedReply(pre.phase)))
        }
    } else {
        match (pre.phase, reply) {
            (RestorePhase::ResolvingBackup, RestoreReply::ZeebeBackups(backups)) => {
                if is_newest_completed(backups@, None) {
                    keeps(pre, post) && ends(post, command, Err(RestoreError::NoCompletedBackup))
                } else {
                    &&& post.backup_id is Some
                    &&& is_newest_completed(backups@, post.backup_id)
                    &&& post.backup == pre.backup
                    &&& post.apps == pre.apps
                    &&& post.brokers == pre.brokers
                    &&& asks(
                        post,
                        command,
                        RestorePhase::QueryingOperate,
                        RestoreCommandView::QueryOperateBackup(
                            operate_request(query_request(post.backup_id->0)),
                        ),
                    )
                }
            },
            (RestorePhase::QueryingOperate, RestoreReply::OperateBackup(record)) => {
                match pre.backup_id {
                    Some(id) => {
                        &&& post.backup_id == pre.backup_id
                        &&& post.backup is Some
                        &&& post.backup->0@ == restore_set_of(id, record)
                        &&& post.apps == pre.apps
                        &&& post.brokers == pre.brokers
                        &&& asks(
                            post,
                            command,
                            RestorePhase::ListingWorkloads,
                            RestoreCommandView::ListWorkloads(platform_selector()),
                        )
                    },
                    None => keeps(pre, post) && ends(
                        post,
                        command,
                        Err(RestoreError::InvalidState),
                    ),
                }
            },
            (RestorePhase::ListingWorkloads, RestoreReply::Workloads(deployments, statefulsets)) => {
                match shutdown_fault(deployments@, statefulsets@) {
                    Some(e) => keeps(pre, post) && ends(
                        post,
                        command,
                        Err(RestoreError::Workloads(e)),
                    ),
                    None => {
                        &&& post.backup_id == pre.backup_id
                        &&& post.backup == pre.backup
                        &&& post.brokers == pre.brokers
                        &&& post.apps is Some
                        &&& post.apps->0.wf()
                        &&& scale_map(post.apps->0.deployments@) == listed_scale(deployments@)
                        &&& scale_map(post.apps->0.statefulsets@) == listed_scale(statefulsets@)
                        &&& runs(
                            post.apps,
                            post,
                            command,
                            RestorePhase::ShuttingDown,
                            scale_commands(shutdown_plan(post.apps->0)),
                        )
                    },
                }
            },
            (RestorePhase::ListingIndices, RestoreReply::Indices(indices)) => {
                keeps(pre, post) && match index_reset_plan(indices@) {
                    Ok(plan) => runs(
                        pre.apps,
                        post,
                        command,
                        RestorePhase::DeletingIndices,
                        send_commands(plan),
                    ),
                    Err(e) => ends(post, command, Err(RestoreError::Index(e))),
                }
            },
            (RestorePhase::ListingRepositories, RestoreReply::Repositories(repositories)) => {
                keeps(pre, post) && match pre.backup {
                    Some(backup) => match index_restore_plan(repositories@, backup) {
                        Ok(plan) => runs(
                            pre.apps,
                            post,
                            command,
                            RestorePhase::RestoringIndices,
                            send_commands(plan),
                        ),
                        Err(e) => ends(post, command, Err(RestoreError::Snapshot(e))),
                    },
                    None => ends(post, command, Err(RestoreError::InvalidState)),
                }
            },
            (RestorePhase::ListingClaimsToWipe, RestoreReply::Claims(claims)) => {
                keeps(pre, post) && match volume_wipe_plan(claims@) {
                    Ok(plan) => runs(
                        pre.apps,
                        post,
                        command,
                        RestorePhase::WipingVolumes,
                        job_commands(plan),
                    ),
                    Err(e) => ends(post, command, Err(RestoreError::Job(e))),
                }
            },
            (RestorePhase::ListingBrokerSets, RestoreReply::BrokerSets(sets)) => {
                if sets@.len() == 0 {
                    keeps(pre, post) && ends(post, command, Err(RestoreError::NoBrokerSet))
                } else {
                    &&& post.backup_id == pre.backup_id
                    &&& post.backup == pre.backup
                    &&& post.apps == pre.apps
                    &&& post.brokers == Some(sets@[0])
                    &&& asks(
                        post,
                        command,
                        RestorePhase::ListingClaimsToRestore,
                        RestoreCommandView::ListClaims(broker_selector()),
                    )
                }
            },
            (RestorePhase::ListingClaimsToRestore, RestoreReply::Claims(claims)) => {
                keeps(pre, post) && match (pre.backup, pre.brokers) {
                    (Some(backup), Some(brokers)) => match volume_restore_plan(
                        backup.id,
                        claims@,
                        brokers,
                    ) {
                        Ok(plan) => runs(
                            pre.apps,
                            post,
                            command,
                            RestorePhase::RestoringVolumes,
                            job_commands(plan),
                        ),
                        Err(e) => ends(post, command, Err(RestoreError::Job(e))),
                    },
                    _ => ends(post, command, Err(RestoreError::InvalidState)),
                }
            },
            _ => keeps(pre, post) && ends(
                post,
                command,
                Err(RestoreError::UnexpectedReply(pre.phase)),
            ),
        }
    }
}

/// A restore that has given out its first command: the workflow engine is
/// asked for its backups.
pub open spec fn restore_started(post: RestoreWorkflow, command: RestoreCommand) -> bool {
    &&& post.backup_id is None
    &&& post.backup is None
    &&& post.apps is None
    &&& post.brokers is None
    &&& asks(
        post,
        command,
        RestorePhase::ResolvingBackup,
        RestoreCommandView::ListZeebeBackups(zeebe_request(list_request())),
    )
}

impl RestoreWorkflow {
    /// Begins a restore.
    pub fn start() -> (next: (RestoreWorkflow, RestoreCommand))
        ensures
            restore_started(next.0, next.1),
    {
        let workflow = RestoreWorkflow {
            phase: RestorePhase::ResolvingBackup,
            backup_id: None,
            backup: None,
            apps: None,
            brokers: None,
            pending: Vec::new(),
            outcome: None,
        };
        (workflow, RestoreCommand::ListZeebeBackups(crate::zeebe::list_backups()))
    }

    /// Whether the restore has ended.
    pub fn is_finished(&self) -> (finished: bool)
        ensures
            finished == (self.phase == RestorePhase::Finished),
    {
        self.phase == RestorePhase::Finished
    }

    fn end(self, outcome: Result<(), RestoreError>) -> (next: (RestoreWorkflow, RestoreCommand))
        ensures
            keeps(self, next.0),
            ends(next.0, next.1, outcome),
    {
        let mut workflow = self;
        workflow.phase = RestorePhase::Finished;
        workflow.outcome = Some(outcome);
        workflow.pending = Vec::new();
        (workflow, RestoreCommand::Finish(outcome))
    }

    fn ask(self, phase: RestorePhase, command: RestoreCommand) -> (next: (
        RestoreWorkflow,
        RestoreCommand,
    ))
        ensures
            keeps(self, next.0),
            asks(next.0, next.1, phase, command@),
            next.1 == command,
    {
        let mut workflow = self;
        workflow.phase = phase;
        workflow.outcome = None;
        workflow.pending = Vec::new();
        (workflow, command)
    }

    /// Gives out the next command of `stack` in `phase`, or goes on where
    /// the stack is empty.
    fn run(self, phase: RestorePhase, stack: Vec<RestoreCommand>) -> (next: (
        RestoreWorkflow,
        RestoreCommand,
    ))
        ensures
            keeps(self, next.0),
            runs(self.apps, next.0, next.1, phase, remaining(stack@)),
    {
        let mut workflow = self;
        let mut stack = stack;
        let ghost plan = remaining(stack@);
        if stack.len() > 0 {
            let command = stack.pop().unwrap();
            workflow.phase = phase;
            workflow.outcome = None;
            workflow.pending = stack;
            assert(remaining(workflow.pending@) =~= plan.skip(1));
            return (workflow, command);
        }
        match phase {
            RestorePhase::ShuttingDown => workflow.ask(
                RestorePhase::ListingIndices,
                RestoreCommand::ListIndices(get_all_indices()),
            ),
            RestorePhase::DeletingIndices => workflow.ask(
                RestorePhase::ListingRepositories,
                RestoreCommand::ListRepositories(list_snapshot_repositories()),
            ),
            RestorePhase::RestoringIndices => workflow.ask(
                RestorePhase::ListingClaimsToWipe,
                RestoreCommand::ListClaims(
                    String::from_str("app.kubernetes.io/component=zeebe-broker"),
                ),
            ),
            RestorePhase::WipingVolumes => workflow.ask(
                RestorePhase::ListingBrokerSets,
                RestoreCommand::ListBrokerSets(
                    String::from_str("app.kubernetes.io/component=zeebe-broker"),
                ),
            ),
            RestorePhase::RestoringVolumes => {
                let restart = match &workflow.apps {
                    Some(record) => Some(start_apps(record)),
                    None => None,
                };
                match restart {
                    Some(plan) => {
                        let mut stack = stack_scales(plan);
                        let ghost plan = remaining(stack@);
                        if stack.len() > 0 {
                            let command = stack.pop().unwrap();
                            workflow.phase = RestorePhase::Restarting;
                            workflow.outcome = None;
                            workflow.pending = stack;
                            assert(remaining(workflow.pending@) =~= plan.skip(1));
                            (workflow, command)
                        } else {
                            workflow.end(Ok(()))
                        }
                    },
                    None => workflow.end(Err(RestoreError::InvalidState)),
                }
            },
            RestorePhase::Restarting => workflow.end(Ok(())),
            _ => workflow.end(Err(RestoreError::InvalidState)),
        }
    }

    /// Takes what came of the last command and gives the next one.
    ///
    /// Commands are given out in the order of the phases, and within a
    /// phase in the order of its plan: the backup is resolved, the
    /// workloads are recorded and scaled to zero, every index is deleted,
    /// every snapshot of the backup is restored, every broker volume is
    /// wiped and then restored, and the workloads are scaled back to what
    /// was recorded. The first failure ends the restore.
    pub fn advance(self, reply: RestoreReply) -> (next: (RestoreWorkflow, RestoreCommand))
        ensures
            restore_step(self, reply, next.0, next.1),
    {
        let phase = self.phase;
        if phase == RestorePhase::Finished {
            let outcome = match self.outcome {
                Some(outcome) => outcome,
                None => Err(RestoreError::InvalidState),
            };
            return (self, RestoreCommand::Finish(outcome));
        }
        let mut workflow = self;
        match reply {
            RestoreReply::Failed => workflow.end(Err(RestoreError::CommandFailed(phase))),
            RestoreReply::Done => {
                match phase {
                    RestorePhase::ShuttingDown
                    | RestorePhase::DeletingIndices
                    | RestorePhase::RestoringIndices
                    | RestorePhase::WipingVolumes
                    | RestorePhase::RestoringVolumes
                    | RestorePhase::Restarting => {
                        let mut stack: Vec<RestoreCommand> = Vec::new();
                        core::mem::swap(&mut stack, &mut workflow.pending);
                        workflow.run(phase, stack)
                    },
                    _ => workflow.end(Err(RestoreError::UnexpectedReply(phase))),
                }
            },
            RestoreReply::ZeebeBackups(backups) => {
                match phase {
                    RestorePhase::ResolvingBackup => match find_newest_backup(&backups) {
                        Some(id) => {
                            workflow.backup_id = Some(id);
                            workflow.ask(
                                RestorePhase::QueryingOperate,
                                RestoreCommand::QueryOperateBackup(crate::operate::query_backup(id)),
                            )
                        },
                        None => workflow.end(Err(RestoreError::NoCompletedBackup)),
                    },
                    _ => workflow.end(Err(RestoreError::UnexpectedReply(phase))),
                }
            },
            RestoreReply::OperateBackup(record) => {
                match phase {
                    RestorePhase::QueryingOperate => match workflow.backup_id {
                        Some(id) => {
                            workflow.backup = Some(restore_set(id, &record));
                            workflow.ask(
                                RestorePhase::ListingWorkloads,
                                RestoreCommand::ListWorkloads(
                                    String::from_str("app.kubernetes.io/part-of=camunda-platform"),
                                ),
                            )
                        },
                        None => workflow.end(Err(RestoreError::InvalidState)),
                    },
                    _ => workflow.end(Err(RestoreError::UnexpectedReply(phase))),
                }
            },
            RestoreReply::Workloads(deployments, statefulsets) => {
                match phase {
                    RestorePhase::ListingWorkloads => {
                        proof {
                            crate::apps::lemma_first_fault(deployments@);
                            crate::apps::lemma_first_fault(statefulsets@);
                        }
                        match shutdown_apps(&deployments, &statefulsets) {
                            Ok((record, plan)) => {
                                workflow.apps = Some(record);
                                workflow.run(RestorePhase::ShuttingDown, stack_scales(plan))
                            },
                            Err(e) => workflow.end(Err(RestoreError::Workloads(e))),
                        }
                    },
                    _ => workflow.end(Err(RestoreError::UnexpectedReply(phase))),
                }
            },
            RestoreReply::Indices(indices) => {
                match phase {
                    RestorePhase::ListingIndices => match delete_indices(&indices) {
                        Ok(plan) => workflow.run(
                            RestorePhase::DeletingIndices,
                            stack_requests(plan),
                        ),
                        Err(e) => workflow.end(Err(RestoreError::Index(e))),
                    },
                    _ => workflow.end(Err(RestoreError::UnexpectedReply(phase))),
                }
            },
            RestoreReply::Repositories(repositories) => {
                match phase {
                    RestorePhase::ListingRepositories => {
                        let plan = match &workflow.backup {
                            Some(backup) => Some(restore_indices(&repositories, backup)),
                            None => None,
                        };
                        match plan {
                            Some(Ok(plan)) => workflow.run(
                                RestorePhase::RestoringIndices,
                                stack_requests(plan),
                            ),
                            Some(Err(e)) => workflow.end(Err(RestoreError::Snapshot(e))),
                            None => workflow.end(Err(RestoreError::InvalidState)),
                        }
                    },
                    _ => workflow.end(Err(RestoreError::UnexpectedReply(phase))),
                }
            },
            RestoreReply::Claims(claims) => {
                match phase {
                    RestorePhase::ListingClaimsToWipe => match delete_zeebe_data(&claims) {
                        Ok(plan) => workflow.run(RestorePhase::WipingVolumes, stack_jobs(plan)),
                        Err(e) => workflow.end(Err(RestoreError::Job(e))),
                    },
                    RestorePhase::ListingClaimsToRestore => {
                        let plan = match (&workflow.backup, &workflow.brokers) {
                            (Some(backup), Some(brokers)) => Some(
                                restore_zeebe_data(backup, &claims, brokers),
                            ),
                            _ => None,
                        };
                        match plan {
                            Some(Ok(plan)) => workflow.run(
                                RestorePhase::RestoringVolumes,
                                stack_jobs(plan),
                            ),
                            Some(Err(e)) => workflow.end(Err(RestoreError::Job(e))),
                            None => workflow.end(Err(RestoreError::InvalidState)),
                        }
                    },
                    _ => workflow.end(Err(RestoreError::UnexpectedReply(phase))),
                }
            },
            RestoreReply::BrokerSets(sets) => {
                match phase {
                    RestorePhase::ListingBrokerSets => {
                        let mut sets = sets;
                        if sets.len() == 0 {
                            workflow.end(Err(RestoreError::NoBrokerSet))
                        } else {
                            workflow.brokers = Some(sets.swap_remove(0));
                            workflow.ask(
                                RestorePhase::ListingClaimsToRestore,
                                RestoreCommand::ListClaims(
                                    String::from_str("app.kubernetes.io/component=zeebe-broker"),
                                ),
                            )
                        }
                    },
                    _ => workflow.end(Err(RestoreError::UnexpectedReply(phase))),
                }
            },
        }
    }
}

/// Begins a restore of the newest backup.
pub fn restore() -> (next: (RestoreWorkflow, RestoreCommand))
    ensures
        restore_started(next.0, next.1),
{
    RestoreWorkflow::start()
}

/// The place of a phase in the course of a restore.
pub open spec fn phase_rank(phase: RestorePhase) -> nat {
    match phase {
        RestorePhase::ResolvingBackup => 0,
        RestorePhase::QueryingOperate => 1,
        RestorePhase::ListingWorkloads => 2,
        RestorePhase::ShuttingDown => 3,
        RestorePhase::ListingIndices => 4,
        RestorePhase::DeletingIndices => 5,
        RestorePhase::ListingRepositories => 6,
        RestorePhase::RestoringIndices => 7,
        RestorePhase::ListingClaimsToWipe => 8,
        RestorePhase::WipingVolumes => 9,
        RestorePhase::ListingBrokerSets => 10,
        RestorePhase::ListingClaimsToRestore => 11,
        RestorePhase::RestoringVolumes => 12,
        RestorePhase::Restarting => 13,
        RestorePhase::Finished => 14,
    }
}

/// A command that changes the platform's data: an index is deleted or
/// restored, or a volume job is run.
pub open spec fn touches_data(command: RestoreCommandView) -> bool {
    command is Send || command is Job
}

/// A command that may be left to do in `phase`.
pub open spec fn fits(phase: RestorePhase, command: RestoreCommandView) -> bool {
    match phase {
        RestorePhase::ShuttingDown | RestorePhase::Restarting => command is Scale,
        RestorePhase::DeletingIndices | RestorePhase::RestoringIndices => command is Send,
        RestorePhase::WipingVolumes | RestorePhase::RestoringVolumes => command is Job,
        _ => false,
    }
}

impl RestoreWorkflow {
    /// What holds of a workflow that `start` and `advance` have made: what
    /// is left to do belongs to the phase, and the outcome is there when the
    /// restore has ended.
    pub open spec fn wf(self) -> bool {
        &&& forall|i: int|
            0 <= i < self.pending@.len() ==> fits(self.phase, (#[trigger] self.pending@[i])@)
        &&& self.phase == RestorePhase::Finished <==> self.outcome is Some
    }
}

/// A workflow that has just started is well-formed.
pub proof fn lemma_restore_starts_well(post: RestoreWorkflow, command: RestoreCommand)
    requires
        restore_started(post, command),
    ensures
        post.wf(),
        !touches_data(command@),
{
}

/// The phases of a restore follow each other in their order, and each
/// depends on the one before.
///
/// No step leads back to an earlier phase. A phase with a plan is left only
/// when every command of the plan was given out and has succeeded, or for
/// the end. Workloads are scaled only in the shutdown and in the restart,
/// and data is touched only between the two: after every order of the
/// shutdown has succeeded, and before the first order of the restart.
pub proof fn lemma_restore_in_order(
    pre: RestoreWorkflow,
    reply: RestoreReply,
    post: RestoreWorkflow,
    command: RestoreCommand,
)
    requires
        pre.wf(),
        restore_step(pre, reply, post, command),
    ensures
        post.wf(),
        phase_rank(pre.phase) <= phase_rank(post.phase),
        is_running(pre.phase) && post.phase != pre.phase && post.phase != RestorePhase::Finished
            ==> reply is Done && pre.pending@.len() == 0,
        command@ is Scale ==> post.phase == RestorePhase::ShuttingDown || post.phase
            == RestorePhase::Restarting,
        touches_data(command@) ==> phase_rank(RestorePhase::ShuttingDown) < phase_rank(post.phase)
            < phase_rank(RestorePhase::Restarting),
        command@ is Finish <==> post.phase == RestorePhase::Finished,
{
    let plan = remaining(post.pending@);
    assert forall|i: int| 0 <= i < post.pending@.len() implies fits(
        post.phase,
        (#[trigger] post.pending@[i])@,
    ) by {
        let k = post.pending@.len() - 1 - i;
        assert(plan[k] == post.pending@[i]@);
        lemma_step_plan(pre, reply, post, command, k);
    }
    if is_running(pre.phase) && reply is Done {
        let before = remaining(pre.pending@);
        assert(before.len() == pre.pending@.len());
        if before.len() > 0 {
            assert(before[0] == pre.pending@[pre.pending@.len() - 1]@);
        }
    }
    if post.phase != RestorePhase::Finished && post.phase != pre.phase || !is_running(pre.phase) {
        lemma_step_command(pre, reply, post, command);
    }
}

/// What a step leaves to do belongs to the phase that it leads to.
proof fn lemma_step_plan(
    pre: RestoreWorkflow,
    reply: RestoreReply,
    post: RestoreWorkflow,
    command: RestoreCommand,
    k: int,
)
    requires
        pre.wf(),
        restore_step(pre, reply, post, command),
        0 <= k < remaining(post.pending@).len(),
    ensures
        fits(post.phase, remaining(post.pending@)[k]),
{
    let left = remaining(post.pending@);
    if pre.phase == RestorePhase::Finished {
        assert(left[k] == pre.pending@[pre.pending@.len() - 1 - k]@);
    } else if post.phase == pre.phase && is_running(pre.phase) {
        let before = remaining(pre.pending@);
        assert(left == before.skip(1));
        assert(left[k] == before[k + 1]);
        assert(before[k + 1] == pre.pending@[pre.pending@.len() - 1 - (k + 1)]@);
    } else {
        match post.phase {
            RestorePhase::ShuttingDown => {
                let plan = scale_commands(shutdown_plan(post.apps->0));
                assert(left[k] == plan.skip(1)[k]);
            },
            RestorePhase::Restarting => {
                let plan = scale_commands(start_plan(pre.apps->0));
                assert(left[k] == plan.skip(1)[k]);
            },
            RestorePhase::DeletingIndices => {
                let plan = send_commands(index_reset_plan(reply->Indices_0@)->Ok_0);
                assert(left[k] == plan.skip(1)[k]);
            },
            RestorePhase::RestoringIndices => {
                let plan = send_commands(
                    index_restore_plan(reply->Repositories_0@, pre.backup->0)->Ok_0,
                );
                assert(left[k] == plan.skip(1)[k]);
            },
            RestorePhase::WipingVolumes => {
                let plan = job_commands(volume_wipe_plan(reply->Claims_0@)->Ok_0);
                assert(left[k] == plan.skip(1)[k]);
            },
            RestorePhase::RestoringVolumes => {
                let plan = job_commands(
                    volume_restore_plan(pre.backup->0.id, reply->Claims_0@, pre.brokers->0)->Ok_0,
                );
                assert(left[k] == plan.skip(1)[k]);
            },
            _ => {},
        }
    }
}

/// The command that a step gives out on entering a phase belongs to that
/// phase.
proof fn lemma_step_command(
    pre: RestoreWorkflow,
    reply: RestoreReply,
    post: RestoreWorkflow,
    command: RestoreCommand,
)
    requires
        pre.wf(),
        restore_step(pre, reply, post, command),
        post.phase != RestorePhase::Finished && post.phase != pre.phase || !is_running(pre.phase),
    ensures
        is_running(post.phase) ==> fits(post.phase, command@),
        !is_running(post.phase) ==> !(command@ is Scale) && !touches_data(command@),
        command@ is Finish <==> post.phase == RestorePhase::Finished,
{
    match post.phase {
        RestorePhase::ShuttingDown => {
            let plan = scale_commands(shutdown_plan(post.apps->0));
            assert(command@ == plan[0]);
        },
        RestorePhase::Restarting => {
            let plan = scale_commands(start_plan(pre.apps->0));
            assert(command@ == plan[0]);
        },
        RestorePhase::DeletingIndices => {
            let plan = send_commands(index_reset_plan(reply->Indices_0@)->Ok_0);
            assert(command@ == plan[0]);
        },
        RestorePhase::RestoringIndices => {
            let plan = send_commands(
                index_restore_plan(reply->Repositories_0@, pre.backup->0)->Ok_0,
            );
            assert(command@ == plan[0]);
        },
        RestorePhase::WipingVolumes => {
            let plan = job_commands(volume_wipe_plan(reply->Claims_0@)->Ok_0);
            assert(command@ == plan[0]);
        },
        RestorePhase::RestoringVolumes => {
            let plan = job_commands(
                volume_restore_plan(pre.backup->0.id, reply->Claims_0@, pre.brokers->0)->Ok_0,
            );
            assert(command@ == plan[0]);
        },
        _ => {},
    }
}

/// The restart works from the record of the shutdown.
///
/// The orders of the shutdown are those that scale every workload of the
/// record to zero, and the record is made of the listing that the shutdown
/// began with. No later step changes the record. The orders of the restart
/// are those that scale every workload of the record back to its count.
pub proof fn lemma_restart_uses_the_record(
    pre: RestoreWorkflow,
    reply: RestoreReply,
    post: RestoreWorkflow,
    command: RestoreCommand,
)
    requires
        restore_step(pre, reply, post, command),
    ensures
        pre.phase != RestorePhase::ListingWorkloads ==> post.apps == pre.apps,
        pre.phase == RestorePhase::ListingWorkloads && post.phase == RestorePhase::ShuttingDown
            ==> post.apps is Some && post.apps->0.wf() && seq![command@] + remaining(
            post.pending@,
        ) == scale_commands(shutdown_plan(post.apps->0)),
        pre.phase != RestorePhase::Restarting && post.phase == RestorePhase::Restarting
            ==> pre.apps is Some && seq![command@] + remaining(post.pending@) == scale_commands(
            start_plan(pre.apps->0),
        ),
{
    if pre.phase == RestorePhase::ListingWorkloads && post.phase == RestorePhase::ShuttingDown {
        let plan = scale_commands(shutdown_plan(post.apps->0));
        assert(seq![command@] + remaining(post.pending@) =~= plan);
    }
    if pre.phase != RestorePhase::Restarting && post.phase == RestorePhase::Restarting {
        let plan = scale_commands(start_plan(pre.apps->0));
        assert(seq![command@] + remaining(post.pending@) =~= plan);
    }
}

/// A run of the workflow: it starts, and each reply leads from one state and
/// command to the next.
pub open spec fn is_restore_run(
    states: Seq<RestoreWorkflow>,
    commands: Seq<RestoreCommand>,
    replies: Seq<RestoreReply>,
) -> bool {
    &&& states.len() == replies.len() + 1
    &&& commands.len() == states.len()
    &&& restore_started(states[0], commands[0])
    &&& forall|i: int|
        0 <= i < replies.len() ==> restore_step(
            states[i],
            #[trigger] replies[i],
            states[i + 1],
            commands[i + 1],
        )
}

/// At every point of a run the workflow is well-formed, and the command
/// just given out belongs to the phase that the workflow is in.
pub proof fn lemma_restore_run_invariant(
    states: Seq<RestoreWorkflow>,
    commands: Seq<RestoreCommand>,
    replies: Seq<RestoreReply>,
    at: int,
)
    requires
        is_restore_run(states, commands, replies),
        0 <= at < states.len(),
    ensures
        states[at].wf(),
        commands[at]@ is Scale ==> states[at].phase == RestorePhase::ShuttingDown
            || states[at].phase == RestorePhase::Restarting,
        touches_data(commands[at]@) ==> phase_rank(RestorePhase::ShuttingDown) < phase_rank(
            states[at].phase,
        ) < phase_rank(RestorePhase::Restarting),
        at > 0 ==> phase_rank(states[at - 1].phase) <= phase_rank(states[at].phase),
    decreases at,
{
    if at == 0 {
        lemma_restore_starts_well(states[0], commands[0]);
    } else {
        lemma_restore_run_invariant(states, commands, replies, at - 1);
        assert(restore_step(states[at - 1], replies[at - 1], states[at], commands[at]));
        lemma_restore_in_order(states[at - 1], replies[at - 1], states[at], commands[at]);
    }
}

/// Along a run the phases only go forward.
pub proof fn lemma_restore_run_goes_forward(
    states: Seq<RestoreWorkflow>,
    commands: Seq<RestoreCommand>,
    replies: Seq<RestoreReply>,
    from: int,
    to: int,
)
    requires
        is_restore_run(states, commands, replies),
        0 <= from <= to < states.len(),
    ensures
        phase_rank(states[from].phase) <= phase_rank(states[to].phase),
    decreases to - from,
{
    if from < to {
        lemma_restore_run_goes_forward(states, commands, replies, from, to - 1);
        lemma_restore_run_invariant(states, commands, replies, to);
    }
}

/// Data is touched only while everything is shut down.
///
/// In every run, an order to scale a workload and a command that deletes
/// or restores an index or runs a volume job stand in one of two ways: the
/// order belongs to the shutdown and comes before the command, or it
/// belongs to the restart and comes after it.
pub proof fn lemma_data_is_touched_while_shut_down(
    states: Seq<RestoreWorkflow>,
    commands: Seq<RestoreCommand>,
    replies: Seq<RestoreReply>,
    order: int,
    touch: int,
)
    requires
        is_restore_run(states, commands, replies),
        0 <= order < commands.len(),
        0 <= touch < commands.len(),
        commands[order]@ is Scale,
        touches_data(commands[touch]@),
    ensures
        states[order].phase == RestorePhase::ShuttingDown && order < touch || states[order].phase
            == RestorePhase::Restarting && touch < order,
{
    lemma_restore_run_invariant(states, commands, replies, order);
    lemma_restore_run_invariant(states, commands, replies, touch);
    if order <= touch {
        lemma_restore_run_goes_forward(states, commands, replies, order, touch);
    } else {
        lemma_restore_run_goes_forward(states, commands, replies, touch, order);
    }
}

} // verus!
