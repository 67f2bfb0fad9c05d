//! Creating a backup.
//!
//! The query service is backed up first. Then the export of records is
//! halted, the exported records are snapshotted, the workflow engine is
//! backed up, and the export is taken up again. Whatever fails, the export
//! is asked to resume before the failure is reported, so that it is never
//! left halted.

use crate::common::{
    elasticsearch_request, operate_request, zeebe_request, ComponentRequest, ComponentRequestView,
};
use crate::components::{create_request, query_request};
use crate::elasticsearch::{
    list_snapshot_repositories, records_snapshot_name, take_snapshot, take_snapshot_outcome,
    zeebe_records_snapshot, NamedRepository, SnapshotError, SnapshotRequest, SnapshotRequestView,
};
use crate::http::{bare_request, Method};
use crate::types::BackupState;
use vstd::prelude::*;

verus! {

/// Seconds between two queries for the state of a backup.
pub const POLL_INTERVAL_SECONDS: u64 = 5;

/// How long a component's backup is waited for.
#[derive(Clone, Copy, Debug, PartialEq, Eq, Structural, Hash)]
pub struct PollPolicy {
    /// Give up as soon as the component reports its backup as `Failed`.
    pub fail_on_failed: bool,
    /// Give up after this many queries that did not report `Completed`.
    pub max_polls: Option<u32>,
}

/// Where the creation of a backup stands.
#[derive(Clone, Copy, Debug, PartialEq, Eq, Structural, Hash)]
pub enum CreatePhase {
    /// The query service was asked to start its backup.
    StartingOperateBackup,
    /// The query service was asked for the state of its backup.
    PollingOperate,
    /// The interval before the next query to the query service runs.
    WaitingForOperate,
    /// The workflow engine was asked to halt the export.
    Pausing,
    /// The search engine was asked for its snapshot repositories.
    FindingRepository,
    /// The search engine was asked to snapshot the exported records.
    TakingSnapshot,
    /// The workflow engine was asked to start its backup.
    StartingZeebeBackup,
    /// The workflow engine was asked for the state of its backup.
    PollingZeebe,
    /// The interval before the next query to the workflow engine runs.
    WaitingForZeebe,
    /// The workflow engine was asked to resume the export, as the last step.
    Resuming,
    /// The workflow engine was asked to resume the export after a failure.
    Compensating,
    /// The creation has ended.
    Finished,
}

/// What went wrong in a step.
#[derive(Clone, Copy, Debug, PartialEq, Eq, Structural, Hash)]
pub enum CreateFailure {
    /// The command given out in this phase failed.
    CommandFailed(CreatePhase),
    /// What came back is no answer to the command given out in this phase.
    UnexpectedReply(CreatePhase),
    /// The snapshot request could not be made.
    Snapshot(SnapshotError),
    /// The component queried in this phase reports its backup as `Failed`.
    BackupFailed(CreatePhase),
    /// The component queried in this phase did not report `Completed`
    /// within the allowed number of queries.
    PollsExhausted(CreatePhase),
}

/// Why the creation of a backup ended early.
#[derive(Clone, Copy, Debug, PartialEq, Eq, Structural, Hash)]
pub enum CreateError {
    /// A step failed. The export was asked to resume and did.
    Failed(CreateFailure),
    /// A step failed with the failure given, and the request to resume the
    /// export failed as well: the export may still be halted.
    ResumeFailed(CreateFailure),
}

/// What the caller is to do next.
#[derive(Debug, PartialEq, Eq)]
pub enum CreateCommand {
    /// Send the request that starts the query service's backup.
    TakeOperateBackup(ComponentRequest),
    /// Send the request and report the state of the backup in the answer.
    QueryOperateBackup(ComponentRequest),
    /// Let this many seconds pass.
    Wait(u64),
    /// Send the request that halts the export.
    PauseExporting(ComponentRequest),
    /// Send the request and report the repositories in the answer.
    ListRepositories(ComponentRequest),
    /// Send the request that snapshots the exported records.
    TakeSnapshot(ComponentRequest),
    /// Send the request that starts the workflow engine's backup.
    TakeZeebeBackup(ComponentRequest),
    /// Send the request and report the state of the backup in the answer.
    QueryZeebeBackup(ComponentRequest),
    /// Send the request that resumes the export.
    ResumeExporting(ComponentRequest),
    /// Stop: the creation has ended with this outcome.
    Finish(Result<(), CreateError>),
}

pub enum CreateCommandView {
    TakeOperateBackup(ComponentRequestView),
    QueryOperateBackup(ComponentRequestView),
    Wait(u64),
    PauseExporting(ComponentRequestView),
    ListRepositories(ComponentRequestView),
    TakeSnapshot(ComponentRequestView),
    TakeZeebeBackup(ComponentRequestView),
    QueryZeebeBackup(ComponentRequestView),
    ResumeExporting(ComponentRequestView),
    Finish(Result<(), CreateError>),
}

impl View for CreateCommand {
    type V = CreateCommandView;

    open spec fn view(&self) -> CreateCommandView {
        match self {
            CreateCommand::TakeOperateBackup(r) => CreateCommandView::TakeOperateBackup(r@),
            CreateCommand::QueryOperateBackup(r) => CreateCommandView::QueryOperateBackup(r@),
            CreateCommand::Wait(seconds) => CreateCommandView::Wait(*seconds),
            CreateCommand::PauseExporting(r) => CreateCommandView::PauseExporting(r@),
            CreateCommand::ListRepositories(r) => CreateCommandView::ListRepositories(r@),
            CreateCommand::TakeSnapshot(r) => CreateCommandView::TakeSnapshot(r@),
            CreateCommand::TakeZeebeBackup(r) => CreateCommandView::TakeZeebeBackup(r@),
            CreateCommand::QueryZeebeBackup(r) => CreateCommandView::QueryZeebeBackup(r@),
            CreateCommand::ResumeExporting(r) => CreateCommandView::ResumeExporting(r@),
            CreateCommand::Finish(o) => CreateCommandView::Finish(*o),
        }
    }
}

/// What came of the last command.
#[derive(Clone, Debug, PartialEq, Eq)]
pub enum CreateReply {
    /// The command failed: the component could not be reached, answered
    /// with an error, or sent what could not be read.
    Failed,
    /// The command succeeded and has nothing to report.
    Done,
    /// The state that the component reports for the backup.
    State(BackupState),
    /// The snapshot repositories that the search engine lists.
    Repositories(Vec<NamedRepository>),
}

/// The creation of a backup in progress.
///
/// The workflow is driven from outside: `start` gives the first command,
/// and each call of `advance` takes what came of the last command and gives
/// the next one, until that is `Finish`.
#[derive(Debug, PartialEq, Eq)]
pub struct CreateWorkflow {
    pub backup_id: u64,
    pub policy: PollPolicy,
    pub phase: CreatePhase,
    /// Queries made for the backup that is being waited for.
    pub polls: u32,
    /// The failure that the export is being resumed after.
    pub failure: Option<CreateFailure>,
    /// How the creation ended.
    pub outcome: Option<Result<(), CreateError>>,
}

/// What the snapshot of the exported records holds: the indices of the
/// workflow engine's records and no feature state.
pub open spec fn records_snapshot_request() -> SnapshotRequestView {
    SnapshotRequestView { indices: "zeebe-record*"@, feature_states: seq!["none"@] }
}

/// The command that the workflow gives out on entering `phase`, for the
/// phases whose command depends on the backup's identifier alone.
pub open spec fn phase_command(id: u64, phase: CreatePhase) -> CreateCommandView
    recommends
        phase != CreatePhase::TakingSnapshot,
        phase != CreatePhase::Finished,
{
    match phase {
        CreatePhase::StartingOperateBackup => CreateCommandView::TakeOperateBackup(
            operate_request(create_request(id)),
        ),
        CreatePhase::PollingOperate => CreateCommandView::QueryOperateBackup(
            operate_request(query_request(id)),
        ),
        CreatePhase::WaitingForOperate => CreateCommandView::Wait(POLL_INTERVAL_SECONDS),
        CreatePhase::Pausing => CreateCommandView::PauseExporting(
            zeebe_request(bare_request(Method::Post, "/actuator/exporting/pause"@)),
        ),
        CreatePhase::FindingRepository => CreateCommandView::ListRepositories(
            elasticsearch_request(bare_request(Method::Get, "/_snapshot/_all"@)),
        ),
        CreatePhase::StartingZeebeBackup => CreateCommandView::TakeZeebeBackup(
            zeebe_request(create_request(id)),
        ),
        CreatePhase::PollingZeebe => CreateCommandView::QueryZeebeBackup(
            zeebe_request(query_request(id)),
        ),
        CreatePhase::WaitingForZeebe => CreateCommandView::Wait(POLL_INTERVAL_SECONDS),
        CreatePhase::Resuming => CreateCommandView::ResumeExporting(
            zeebe_request(bare_request(Method::Post, "/actuator/exporting/resume"@)),
        ),
        CreatePhase::Compensating => CreateCommandView::ResumeExporting(
            zeebe_request(bare_request(Method::Post, "/actuator/exporting/resume"@)),
        ),
        // The snapshot request names a repository, and the end has an
        // outcome: neither is a matter of the identifier alone.
        CreatePhase::TakingSnapshot => arbitrary(),
        CreatePhase::Finished => arbitrary(),
    }
}

/// The step changes neither the backup's identifier nor the policy.
pub open spec fn same_backup(pre: CreateWorkflow, post: CreateWorkflow) -> bool {
    post.backup_id == pre.backup_id && post.policy == pre.policy
}

/// The workflow has entered `phase` and given out that phase's command.
pub open spec fn enters(
    pre: CreateWorkflow,
    post: CreateWorkflow,
    command: CreateCommand,
    phase: CreatePhase,
    polls: u32,
) -> bool {
    &&& same_backup(pre, post)
    &&& post.phase == phase
    &&& post.polls == polls
    &&& post.failure is None
    &&& post.outcome is None
    &&& command@ == phase_command(pre.backup_id, phase)
}

/// The workflow has met `failure` and asked the export to resume before it
/// reports it.
pub open spec fn compensates(
    pre: CreateWorkflow,
    post: CreateWorkflow,
    command: CreateCommand,
    failure: CreateFailure,
) -> bool {
    &&& same_backup(pre, post)
    &&& post.phase == CreatePhase::Compensating
    &&& post.polls == pre.polls
    &&& post.failure == Some(failure)
    &&& post.outcome is None
    &&& command@ == phase_command(pre.backup_id, CreatePhase::Compensating)
}

/// The creation has ended with `outcome`.
pub open spec fn finishes(
    pre: CreateWorkflow,
    post: CreateWorkflow,
    command: CreateCommand,
    outcome: Result<(), CreateError>,
) -> bool {
    &&& same_backup(pre, post)
    &&& post.phase == CreatePhase::Finished
    &&& post.polls == pre.polls
    &&& post.failure == pre.failure
    &&& post.outcome == Some(outcome)
    &&& command@ == CreateCommandView::Finish(outcome)
}

/// Another query may follow `polls` queries that did not report
/// `Completed`.
pub open spec fn may_poll_again(policy: PollPolicy, polls: u32) -> bool {
    match policy.max_polls {
        Some(limit) => polls < limit,
        None => true,
    }
}

/// What the workflow makes of the answer to a query for a backup's state,
/// in the polling phase `pre.phase`: `Completed` lets it go on to `then`;
/// with anything else it waits in `wait` and asks again, unless the policy
/// tells it to give up.
pub open spec fn polls_on(
    pre: CreateWorkflow,
    reply: CreateReply,
    post: CreateWorkflow,
    command: CreateCommand,
    wait: CreatePhase,
    then: CreatePhase,
) -> bool {
    if reply == CreateReply::State(BackupState::Completed) {
        enters(pre, post, command, then, 0)
    } else if reply == CreateReply::State(BackupState::Failed) && pre.policy.fail_on_failed {
        compensates(pre, post, command, CreateFailure::BackupFailed(pre.phase))
    } else if may_poll_again(pre.policy, pre.polls) {
        enters(pre, post, command, wait, pre.polls)
    } else {
        compensates(pre, post, command, CreateFailure::PollsExhausted(pre.phase))
    }
}

/// What the workflow makes of the outcome of a command that only succeeds
/// or fails: success lets it go on to `then`.
pub open spec fn goes_on(
    pre: CreateWorkflow,
    reply: CreateReply,
    post: CreateWorkflow,
    command: CreateCommand,
    then: CreatePhase,
    polls: u32,
) -> bool {
    match reply {
        CreateReply::Done => enters(pre, post, command, then, polls),
        CreateReply::Failed => compensates(
            pre,
            post,
            command,
            CreateFailure::CommandFailed(pre.phase),
        ),
        _ => compensates(pre, post, command, CreateFailure::UnexpectedReply(pre.phase)),
    }
}

/// The number of queries after one more, which stays at the greatest
/// number that can be counted.
pub open spec fn one_more(polls: u32) -> u32 {
    if polls < u32::MAX {
        (polls + 1) as u32
    } else {
        polls
    }
}

/// One step of the creation of a backup: what the workflow `pre` makes of
/// `reply`, as the workflow `post` that it becomes and the `command` that
/// it gives out.
pub open spec fn create_step(
    pre: CreateWorkflow,
    reply: CreateReply,
    post: CreateWorkflow,
    command: CreateCommand,
) -> bool {
    match pre.phase {
        CreatePhase::StartingOperateBackup => goes_on(
            pre,
            reply,
            post,
            command,
            CreatePhase::PollingOperate,
            1,
        ),
        CreatePhase::PollingOperate => polls_on(
            pre,
            reply,
            post,
            command,
            CreatePhase::WaitingForOperate,
            CreatePhase::Pausing,
        ),
        CreatePhase::WaitingForOperate => goes_on(
            pre,
            reply,
            post,
            command,
            CreatePhase::PollingOperate,
            one_more(pre.polls),
        ),
        CreatePhase::Pausing => goes_on(
            pre,
            reply,
            post,
            command,
            CreatePhase::FindingRepository,
            0,
        ),
        CreatePhase::FindingRepository => match reply {
            CreateReply::Repositories(repositories) => match take_snapshot_outcome(
                repositories@,
                records_snapshot_request(),
                records_snapshot_name(pre.backup_id),
            ) {
                Ok(request) => {
                    &&& same_backup(pre, post)
                    &&& post.phase == CreatePhase::TakingSnapshot
                    &&& post.polls == 0
                    &&& post.failure is None
                    &&& post.outcome is None
                    &&& command@ == CreateCommandView::TakeSnapshot(request)
                },
                Err(e) => compensates(pre, post, command, CreateFailure::Snapshot(e)),
            },
            CreateReply::Failed => compensates(
                pre,
                post,
                command,
                CreateFailure::CommandFailed(pre.phase),
            ),
            _ => compensates(pre, post, command, CreateFailure::UnexpectedReply(pre.phase)),
        },
        CreatePhase::TakingSnapshot => goes_on(
            pre,
            reply,
            post,
            command,
            CreatePhase::StartingZeebeBackup,
            0,
        ),
        CreatePhase::StartingZeebeBackup => goes_on(
            pre,
            reply,
            post,
            command,
            CreatePhase::PollingZeebe,
            1,
        ),
        CreatePhase::PollingZeebe => polls_on(
            pre,
            reply,
            post,
            command,
            CreatePhase::WaitingForZeebe,
            CreatePhase::Resuming,
        ),
        CreatePhase::WaitingForZeebe => goes_on(
            pre,
            reply,
            post,
            command,
            CreatePhase::PollingZeebe,
            one_more(pre.polls),
        ),
        CreatePhase::Resuming => match reply {
            CreateReply::Done => finishes(pre, post, command, Ok(())),
            CreateReply::Failed => compensates(
                pre,
                post,
                command,
                CreateFailure::CommandFailed(pre.phase),
            ),
            _ => compensates(pre, post, command, CreateFailure::UnexpectedReply(pre.phase)),
        },
        CreatePhase::Compensating => {
            let failure = match pre.failure {
                Some(failure) => failure,
                None => CreateFailure::UnexpectedReply(pre.phase),
            };
            match reply {
                CreateReply::Done => finishes(pre, post, command, Err(CreateError::Failed(failure))),
                _ => finishes(pre, post, command, Err(CreateError::ResumeFailed(failure))),
            }
        },
        CreatePhase::Finished => post == pre && command@ == CreateCommandView::Finish(
            match pre.outcome {
                Some(outcome) => outcome,
                None => Err(
                    CreateError::Failed(CreateFailure::UnexpectedReply(CreatePhase::Finished)),
                ),
            },
        ),
    }
}

/// The creation of the backup `id` has given out its first command: the
/// query service is asked to start its backup.
pub open spec fn create_started(
    id: u64,
    policy: PollPolicy,
    post: CreateWorkflow,
    command: CreateCommand,
) -> bool {
    &&& post.backup_id == id
    &&& post.policy == policy
    &&& post.phase == CreatePhase::StartingOperateBackup
    &&& post.polls == 0
    &&& post.failure is None
    &&& post.outcome is None
    &&& command@ == phase_command(id, CreatePhase::StartingOperateBackup)
}

impl PollPolicy {
    /// Waits for `Completed` however long it takes and whatever else the
    /// component reports in between.
    pub fn patient() -> (policy: PollPolicy)
        ensures
            policy == (PollPolicy { fail_on_failed: false, max_polls: None }),
    {
        PollPolicy { fail_on_failed: false, max_polls: None }
    }

    /// Gives up when the component reports `Failed`, or after `max_polls`
    /// queries that did not report `Completed`.
    pub fn strict(max_polls: u32) -> (policy: PollPolicy)
        ensures
            policy == (PollPolicy { fail_on_failed: true, max_polls: Some(max_polls) }),
    {
        PollPolicy { fail_on_failed: true, max_polls: Some(max_polls) }
    }
}

impl CreateWorkflow {
    /// Begins the creation of the backup `backup_id`.
    pub fn start(backup_id: u64, policy: PollPolicy) -> (next: (CreateWorkflow, CreateCommand))
        ensures
            create_started(backup_id, policy, next.0, next.1),
    {
        let workflow = CreateWorkflow {
            backup_id,
            policy,
            phase: CreatePhase::StartingOperateBackup,
            polls: 0,
            failure: None,
            outcome: None,
        };
        (workflow, CreateCommand::TakeOperateBackup(crate::operate::take_backup(backup_id)))
    }

    /// Whether the creation has ended.
    pub fn is_finished(&self) -> (finished: bool)
        ensures
            finished == (self.phase == CreatePhase::Finished),
    {
        self.phase == CreatePhase::Finished
    }

    fn enter(self, phase: CreatePhase, polls: u32) -> (next: (CreateWorkflow, CreateCommand))
        requires
            phase != CreatePhase::TakingSnapshot,
            phase != CreatePhase::Finished,
            phase != CreatePhase::Compensating,
        ensures
            enters(self, next.0, next.1, phase, polls),
    {
        let id = self.backup_id;
        let command = match phase {
            CreatePhase::StartingOperateBackup => CreateCommand::TakeOperateBackup(
                crate::operate::take_backup(id),
            ),
            CreatePhase::PollingOperate => CreateCommand::QueryOperateBackup(
                crate::operate::query_backup(id),
            ),
            CreatePhase::WaitingForOperate => CreateCommand::Wait(POLL_INTERVAL_SECONDS),
            CreatePhase::Pausing => CreateCommand::PauseExporting(crate::zeebe::pause_exporting()),
            CreatePhase::FindingRepository => CreateCommand::ListRepositories(
                list_snapshot_repositories(),
            ),
            CreatePhase::StartingZeebeBackup => CreateCommand::TakeZeebeBackup(
                crate::zeebe::take_backup(id),
            ),
            CreatePhase::PollingZeebe => CreateCommand::QueryZeebeBackup(
                crate::zeebe::query_backup(id),
            ),
            CreatePhase::WaitingForZeebe => CreateCommand::Wait(POLL_INTERVAL_SECONDS),
            _ => CreateCommand::ResumeExporting(crate::zeebe::resume_exporting()),
        };
        let workflow = CreateWorkflow {
            backup_id: id,
            policy: self.policy,
            phase,
            polls,
            failure: None,
            outcome: None,
        };
        (workflow, command)
    }

    fn compensate(self, failure: CreateFailure) -> (next: (CreateWorkflow, CreateCommand))
        ensures
            compensates(self, next.0, next.1, failure),
    {
        let workflow = CreateWorkflow {
            backup_id: self.backup_id,
            policy: self.policy,
            phase: CreatePhase::Compensating,
            polls: self.polls,
            failure: Some(failure),
            outcome: None,
        };
        (workflow, CreateCommand::ResumeExporting(crate::zeebe::resume_exporting()))
    }

    fn finish(self, outcome: Result<(), CreateError>) -> (next: (CreateWorkflow, CreateCommand))
        ensures
            finishes(self, next.0, next.1, outcome),
    {
        let workflow = CreateWorkflow {
            backup_id: self.backup_id,
            policy: self.policy,
            phase: CreatePhase::Finished,
            polls: self.polls,
            failure: self.failure,
            outcome: Some(outcome),
        };
        (workflow, CreateCommand::Finish(outcome))
    }

    fn go_on(self, reply: CreateReply, then: CreatePhase, polls: u32) -> (next: (
        CreateWorkflow,
        CreateCommand,
    ))
        requires
            then != CreatePhase::TakingSnapshot,
            then != CreatePhase::Finished,
            then != CreatePhase::Compensating,
        ensures
            goes_on(self, reply, next.0, next.1, then, polls),
    {
        let phase = self.phase;
        match reply {
            CreateReply::Done => self.enter(then, polls),
            CreateReply::Failed => self.compensate(CreateFailure::CommandFailed(phase)),
            _ => self.compensate(CreateFailure::UnexpectedReply(phase)),
        }
    }

    fn poll_on(self, reply: CreateReply, wait: CreatePhase, then: CreatePhase) -> (next: (
        CreateWorkflow,
        CreateCommand,
    ))
        requires
            wait == CreatePhase::WaitingForOperate || wait == CreatePhase::WaitingForZeebe,
            then == CreatePhase::Pausing || then == CreatePhase::Resuming,
        ensures
            polls_on(self, reply, next.0, next.1, wait, then),
    {
        let phase = self.phase;
        let polls = self.polls;
        let state = match reply {
            CreateReply::State(state) => Some(state),
            _ => None,
        };
        let completed = match state {
            Some(BackupState::Completed) => true,
            _ => false,
        };
        let failed = match state {
            Some(BackupState::Failed) => true,
            _ => false,
        };
        if completed {
            return self.enter(then, 0);
        }
        if failed && self.policy.fail_on_failed {
            return self.compensate(CreateFailure::BackupFailed(phase));
        }
        let again = match self.policy.max_polls {
            Some(limit) => polls < limit,
            None => true,
        };
        if again {
            self.enter(wait, polls)
        } else {
            self.compensate(CreateFailure::PollsExhausted(phase))
        }
    }

    /// Takes what came of the last command and gives the next one.
    ///
    /// The steps follow each other in a fixed order: the query service's
    /// backup is started and waited for, the export is halted, the exported
    /// records are snapshotted, the workflow engine's backup is started and
    /// waited for, and the export is resumed. While a backup is waited for,
    /// its state is asked for every five seconds. A step that fails is
    /// followed by one request to resume the export, and then the failure
    /// is reported; where that request fails too, the report says so and
    /// still names the first failure.
    pub fn advance(self, reply: CreateReply) -> (next: (CreateWorkflow, CreateCommand))
        ensures
            create_step(self, reply, next.0, next.1),
    {
        let phase = self.phase;
        match phase {
            CreatePhase::StartingOperateBackup => self.go_on(reply, CreatePhase::PollingOperate, 1),
            CreatePhase::PollingOperate => self.poll_on(
                reply,
                CreatePhase::WaitingForOperate,
                CreatePhase::Pausing,
            ),
            CreatePhase::WaitingForOperate => {
                let polls = if self.polls < u32::MAX {
                    self.polls + 1
                } else {
                    self.polls
                };
                self.go_on(reply, CreatePhase::PollingOperate, polls)
            },
            CreatePhase::Pausing => self.go_on(reply, CreatePhase::FindingRepository, 0),
            CreatePhase::FindingRepository => match reply {
                CreateReply::Repositories(repositories) => {
                    let mut feature_states: Vec<String> = Vec::new();
                    feature_states.push(String::from_str("none"));
                    let request = SnapshotRequest {
                        indices: String::from_str("zeebe-record*"),
                        feature_states,
                    };
                    assert(request@.feature_states =~= records_snapshot_request().feature_states);
                    let name = zeebe_records_snapshot(self.backup_id);
                    match take_snapshot(&repositories, &request, name.as_str()) {
                        Ok(snapshot) => {
                            let workflow = CreateWorkflow {
                                backup_id: self.backup_id,
                                policy: self.policy,
                                phase: CreatePhase::TakingSnapshot,
                                polls: 0,
                                failure: None,
                                outcome: None,
                            };
                            (workflow, CreateCommand::TakeSnapshot(snapshot))
                        },
                        Err(e) => self.compensate(CreateFailure::Snapshot(e)),
                    }
                },
                CreateReply::Failed => self.compensate(CreateFailure::CommandFailed(phase)),
                _ => self.compensate(CreateFailure::UnexpectedReply(phase)),
            },
            CreatePhase::TakingSnapshot => self.go_on(reply, CreatePhase::StartingZeebeBackup, 0),
            CreatePhase::StartingZeebeBackup => self.go_on(reply, CreatePhase::PollingZeebe, 1),
            CreatePhase::PollingZeebe => self.poll_on(
                reply,
                CreatePhase::WaitingForZeebe,
                CreatePhase::Resuming,
            ),
            CreatePhase::WaitingForZeebe => {
                let polls = if self.polls < u32::MAX {
                    self.polls + 1
                } else {
                    self.polls
                };
                self.go_on(reply, CreatePhase::PollingZeebe, polls)
            },
            CreatePhase::Resuming => match reply {
                CreateReply::Done => self.finish(Ok(())),
                CreateReply::Failed => self.compensate(CreateFailure::CommandFailed(phase)),
                _ => self.compensate(CreateFailure::UnexpectedReply(phase)),
            },
            CreatePhase::Compensating => {
                let failure = match self.failure {
                    Some(failure) => failure,
                    None => CreateFailure::UnexpectedReply(phase),
                };
                match reply {
                    CreateReply::Done => self.finish(Err(CreateError::Failed(failure))),
                    _ => self.finish(Err(CreateError::ResumeFailed(failure))),
                }
            },
            CreatePhase::Finished => {
                let outcome = match self.outcome {
                    Some(outcome) => outcome,
                    None => Err(
                        CreateError::Failed(CreateFailure::UnexpectedReply(CreatePhase::Finished)),
                    ),
                };
                (self, CreateCommand::Finish(outcome))
            },
        }
    }
}

/// A run of the workflow: it starts, and each reply leads from one state and
/// command to the next.
pub open spec fn is_run(
    states: Seq<CreateWorkflow>,
    commands: Seq<CreateCommand>,
    replies: Seq<CreateReply>,
) -> bool {
    &&& states.len() == replies.len() + 1
    &&& commands.len() == states.len()
    &&& create_started(states[0].backup_id, states[0].policy, states[0], commands[0])
    &&& forall|i: int|
        0 <= i < replies.len() ==> create_step(
            states[i],
            #[trigger] replies[i],
            states[i + 1],
            commands[i + 1],
        )
}

/// A request to halt the export is among the commands.
pub open spec fn has_paused(commands: Seq<CreateCommand>) -> bool {
    exists|j: int| 0 <= j < commands.len() && (#[trigger] commands[j]) is PauseExporting
}

/// Every request for a snapshot of the exported records, and every request
/// to start the workflow engine's backup, has a request to halt the export
/// before it.
pub open spec fn pauses_first(commands: Seq<CreateCommand>) -> bool {
    forall|i: int|
        0 <= i < commands.len() && ((#[trigger] commands[i]) is TakeSnapshot || commands[i]
            is TakeZeebeBackup) ==> has_paused(commands.take(i))
}

/// How many of the commands ask the export to resume.
pub open spec fn resume_requests(commands: Seq<CreateCommand>) -> nat
    decreases commands.len(),
{
    if commands.len() == 0 {
        0
    } else {
        resume_requests(commands.drop_last()) + if commands.last() is ResumeExporting {
            1nat
        } else {
            0nat
        }
    }
}

/// The failure is that of the last step, the request to resume the export.
pub open spec fn failed_resuming(failure: CreateFailure) -> bool {
    failure == CreateFailure::CommandFailed(CreatePhase::Resuming) || failure
        == CreateFailure::UnexpectedReply(CreatePhase::Resuming)
}

/// The export is halted, as far as the workflow knows: the request to halt
/// it was given out, and none to resume it yet.
pub open spec fn export_halted(phase: CreatePhase) -> bool {
    phase == CreatePhase::Pausing || phase == CreatePhase::FindingRepository || phase
        == CreatePhase::TakingSnapshot || phase == CreatePhase::StartingZeebeBackup || phase
        == CreatePhase::PollingZeebe || phase == CreatePhase::WaitingForZeebe
}

/// What holds of a workflow and the commands it has given out so far.
pub open spec fn run_invariant(state: CreateWorkflow, commands: Seq<CreateCommand>) -> bool {
    &&& pauses_first(commands)
    &&& export_halted(state.phase) || state.phase == CreatePhase::Resuming ==> has_paused(commands)
    &&& match state.phase {
        CreatePhase::Resuming => state.failure is None && resume_requests(commands) == 1,
        CreatePhase::Compensating => match state.failure {
            Some(failure) => resume_requests(commands) == if failed_resuming(failure) {
                2nat
            } else {
                1nat
            },
            None => false,
        },
        CreatePhase::Finished => match state.outcome {
            Some(Ok(())) => resume_requests(commands) == 1,
            Some(Err(CreateError::Failed(failure))) => resume_requests(commands)
                == if failed_resuming(failure) {
                2nat
            } else {
                1nat
            },
            Some(Err(CreateError::ResumeFailed(failure))) => resume_requests(commands)
                == if failed_resuming(failure) {
                2nat
            } else {
                1nat
            },
            None => false,
        },
        _ => state.failure is None && resume_requests(commands) == 0,
    }
}

proof fn lemma_pauses_first_push(commands: Seq<CreateCommand>, next: CreateCommand)
    requires
        pauses_first(commands),
        next is TakeSnapshot || next is TakeZeebeBackup ==> has_paused(commands),
    ensures
        pauses_first(commands.push(next)),
        has_paused(commands) ==> has_paused(commands.push(next)),
        next is PauseExporting ==> has_paused(commands.push(next)),
        resume_requests(commands.push(next)) == resume_requests(commands) + if next
            is ResumeExporting {
            1nat
        } else {
            0nat
        },
{
    let all = commands.push(next);
    assert(all.drop_last() =~= commands);
    assert forall|i: int|
        0 <= i < all.len() && ((#[trigger] all[i]) is TakeSnapshot || all[i]
            is TakeZeebeBackup) implies has_paused(all.take(i)) by {
        if i < commands.len() {
            assert(all[i] == commands[i]);
            assert(all.take(i) =~= commands.take(i));
        } else {
            assert(all.take(i) =~= commands);
        }
    }
    if has_paused(commands) {
        let j = choose|j: int| 0 <= j < commands.len() && (#[trigger] commands[j]) is PauseExporting;
        assert(all[j] is PauseExporting);
    }
    if next is PauseExporting {
        assert(all[all.len() - 1] is PauseExporting);
    }
}

/// What holds at every point of a run.
pub proof fn lemma_run_invariant(
    states: Seq<CreateWorkflow>,
    commands: Seq<CreateCommand>,
    replies: Seq<CreateReply>,
    at: int,
)
    requires
        is_run(states, commands, replies),
        0 <= at < states.len(),
    ensures
        run_invariant(states[at], commands.take(at + 1)),
    decreases at,
{
    if at == 0 {
        let first = commands.take(1);
        assert(first =~= Seq::<CreateCommand>::empty().push(commands[0]));
        assert(pauses_first(Seq::<CreateCommand>::empty()));
        assert(resume_requests(Seq::<CreateCommand>::empty()) == 0);
        lemma_pauses_first_push(Seq::<CreateCommand>::empty(), commands[0]);
    } else {
        lemma_run_invariant(states, commands, replies, at - 1);
        let pre = states[at - 1];
        let post = states[at];
        let reply = replies[at - 1];
        let command = commands[at];
        let before = commands.take(at);
        assert(create_step(pre, reply, post, command));
        assert(commands.take(at + 1) =~= before.push(command));
        if command is TakeSnapshot || command is TakeZeebeBackup {
            assert(has_paused(before));
        }
        lemma_pauses_first_push(before, command);
    }
}

/// The export is halted before the exported records are snapshotted and
/// before the workflow engine is backed up: in every run, a request to halt
/// the export precedes each of the two.
pub proof fn lemma_pause_comes_first(
    states: Seq<CreateWorkflow>,
    commands: Seq<CreateCommand>,
    replies: Seq<CreateReply>,
)
    requires
        is_run(states, commands, replies),
    ensures
        pauses_first(commands),
{
    lemma_run_invariant(states, commands, replies, states.len() - 1);
    assert(commands.take(states.len() as int) =~= commands);
}

/// The export is asked to resume exactly once, however the creation goes.
///
/// In a run that has ended well there is one such request, the last step.
/// In a run that has ended with a failure there is one such request after
/// the failure and none before it, wherever the failure struck, also before
/// the export was ever halted. The one exception in the count is a failure
/// of the last step itself, which is a request to resume: the request that
/// follows it is then the second.
pub proof fn lemma_resumes_once(
    states: Seq<CreateWorkflow>,
    commands: Seq<CreateCommand>,
    replies: Seq<CreateReply>,
)
    requires
        is_run(states, commands, replies),
        states.last().phase == CreatePhase::Finished,
    ensures
        match states.last().outcome {
            Some(Ok(())) => resume_requests(commands) == 1,
            Some(Err(CreateError::Failed(failure))) => resume_requests(commands)
                == if failed_resuming(failure) {
                2nat
            } else {
                1nat
            },
            Some(Err(CreateError::ResumeFailed(failure))) => resume_requests(commands)
                == if failed_resuming(failure) {
                2nat
            } else {
                1nat
            },
            None => false,
        },
{
    lemma_run_invariant(states, commands, replies, states.len() - 1);
    assert(commands.take(states.len() as int) =~= commands);
}

/// A failure is followed at once by the request to resume the export, and
/// the failure is what the run ends with, whether that request succeeds or
/// not.
pub proof fn lemma_failure_is_reported(
    pre: CreateWorkflow,
    reply: CreateReply,
    mid: CreateWorkflow,
    resume: CreateCommand,
    answer: CreateReply,
    post: CreateWorkflow,
    last: CreateCommand,
)
    requires
        pre.phase != CreatePhase::Compensating,
        create_step(pre, reply, mid, resume),
        mid.phase == CreatePhase::Compensating,
        create_step(mid, answer, post, last),
    ensures
        resume is ResumeExporting,
        mid.failure is Some,
        post.phase == CreatePhase::Finished,
        answer is Done ==> last@ == CreateCommandView::Finish(
            Err(CreateError::Failed(mid.failure->0)),
        ),
        !(answer is Done) ==> last@ == CreateCommandView::Finish(
            Err(CreateError::ResumeFailed(mid.failure->0)),
        ),
{
}

/// Reads the clock with `chrono::Utc::now` and gives the time as a Unix
/// timestamp in seconds. Nothing is stated of it.
#[verifier::external_body]
fn unix_time_now() -> i64 {
    chrono::Utc::now().timestamp()
}

/// The identifier of a backup started at `timestamp`: the timestamp itself.
/// A time before 1970 wraps around.
pub fn backup_id_at(timestamp: i64) -> (id: u64)
    ensures
        id == timestamp as u64,
        timestamp >= 0 ==> id == timestamp,
{
    #[verifier::truncate]
    (timestamp as u64)
}

/// Begins the creation of a backup that is named after the current time.
pub fn create(policy: PollPolicy) -> (next: (CreateWorkflow, CreateCommand))
    ensures
        create_started(next.0.backup_id, policy, next.0, next.1),
{
    let backup_id = backup_id_at(unix_time_now());
    CreateWorkflow::start(backup_id, policy)
}

} // verus!
