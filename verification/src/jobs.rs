//! Volume jobs: the short-lived cluster jobs that wipe a broker's volume and
//! refill it from a backup.
//!
//! A job belongs to exactly one persistent volume claim and is named after it.
//! The types here hold, as plain values, what the rules read from the cluster
//! objects and what they put into a job.

use crate::restore::Backup;
use crate::text::{
    dash_free, decimal, find_last_dash, last_dash, lemma_last_dash, opt_view, push_decimal,
    strings_view,
};
use vstd::prelude::*;

verus! {

/// The two tasks that run against a broker's volume.
#[derive(Clone, Copy, Debug, PartialEq, Eq, Structural, Hash)]
pub enum JobKind {
    /// Clears the data directory.
    Delete,
    /// Runs the workflow engine's restore procedure.
    Restore,
}

/// Why no job could be built.
#[derive(Clone, Copy, Debug, PartialEq, Eq, Structural, Hash)]
pub enum JobError {
    /// The claim carries no name.
    MissingClaimName,
    /// The claim's name holds no `-`, so no broker ordinal follows one.
    MissingNodeId,
    /// The brokers' stateful set carries no pod specification.
    MissingPodSpec,
    /// The brokers' pod specification lists no container.
    MissingContainer,
    /// The brokers' container names no image.
    MissingImage,
}

/// An environment variable of a container. `value_from` carries a reference
/// to another object in serialized form; it is handed on as it came.
#[derive(Clone, Debug, PartialEq, Eq)]
pub struct EnvVar {
    pub name: String,
    pub value: Option<String>,
    pub value_from: Option<String>,
}

pub struct EnvVarView {
    pub name: Seq<char>,
    pub value: Option<Seq<char>>,
    pub value_from: Option<Seq<char>>,
}

impl View for EnvVar {
    type V = EnvVarView;

    open spec fn view(&self) -> EnvVarView {
        EnvVarView {
            name: self.name@,
            value: opt_view(self.value),
            value_from: opt_view(self.value_from),
        }
    }
}

/// The variables of a list, each by its view.
pub open spec fn env_view(env: Seq<EnvVar>) -> Seq<EnvVarView> {
    Seq::new(env.len(), |i: int| env[i]@)
}

/// A persistent volume claim as the cluster lists it.
#[derive(Clone, Debug, PartialEq, Eq)]
pub struct Claim {
    pub name: Option<String>,
}

/// A container of the brokers' pod template.
#[derive(Clone, Debug, PartialEq, Eq)]
pub struct BrokerContainer {
    pub image: Option<String>,
    pub env: Option<Vec<EnvVar>>,
}

/// The pod template of the brokers' stateful set.
#[derive(Clone, Debug, PartialEq, Eq)]
pub struct BrokerPodSpec {
    pub service_account_name: Option<String>,
    pub containers: Vec<BrokerContainer>,
}

/// The brokers' stateful set as the cluster lists it.
#[derive(Clone, Debug, PartialEq, Eq)]
pub struct BrokerSet {
    pub pod_spec: Option<BrokerPodSpec>,
}

/// A job with one container that mounts one claim.
#[derive(Clone, Debug, PartialEq, Eq)]
pub struct VolumeJob {
    pub name: String,
    pub service_account_name: Option<String>,
    pub container_name: String,
    pub image: String,
    pub command: Vec<String>,
    pub env: Option<Vec<EnvVar>>,
    pub volume_name: String,
    pub mount_path: String,
    pub claim_name: String,
    pub restart_policy: String,
}

pub struct VolumeJobView {
    pub name: Seq<char>,
    pub service_account_name: Option<Seq<char>>,
    pub container_name: Seq<char>,
    pub image: Seq<char>,
    pub command: Seq<Seq<char>>,
    pub env: Option<Seq<EnvVarView>>,
    pub volume_name: Seq<char>,
    pub mount_path: Seq<char>,
    pub claim_name: Seq<char>,
    pub restart_policy: Seq<char>,
}

impl View for VolumeJob {
    type V = VolumeJobView;

    open spec fn view(&self) -> VolumeJobView {
        VolumeJobView {
            name: self.name@,
            service_account_name: opt_view(self.service_account_name),
            container_name: self.container_name@,
            image: self.image@,
            command: strings_view(self.command@),
            env: match self.env {
                Some(env) => Some(env_view(env@)),
                None => None,
            },
            volume_name: self.volume_name@,
            mount_path: self.mount_path@,
            claim_name: self.claim_name@,
            restart_policy: self.restart_policy@,
        }
    }
}

/// The prefix that a job's name puts before the claim's name.
pub open spec fn job_prefix(kind: JobKind) -> Seq<char> {
    match kind {
        JobKind::Delete => "delete-"@,
        JobKind::Restore => "restore-"@,
    }
}

/// The name of the job of `kind` for the claim `claim`.
pub open spec fn job_name_of(kind: JobKind, claim: Seq<char>) -> Seq<char> {
    job_prefix(kind) + claim
}

/// The name of the job of `kind` for the claim `claim`: `delete-<claim>` or
/// `restore-<claim>`.
pub fn job_name(kind: JobKind, claim: &str) -> (name: String)
    ensures
        name@ == job_name_of(kind, claim@),
{
    let mut name = match kind {
        JobKind::Delete => String::from_str("delete-"),
        JobKind::Restore => String::from_str("restore-"),
    };
    name.append(claim);
    name
}

/// A job's name determines both the task and the claim: two jobs share a
/// name only if they run the same task against the same claim.
pub proof fn lemma_job_name_injective(k1: JobKind, c1: Seq<char>, k2: JobKind, c2: Seq<char>)
    requires
        job_name_of(k1, c1) == job_name_of(k2, c2),
    ensures
        k1 == k2,
        c1 == c2,
{
    reveal_strlit("delete-");
    reveal_strlit("restore-");
    let n1 = job_name_of(k1, c1);
    let n2 = job_name_of(k2, c2);
    assert(n1[0] == job_prefix(k1)[0]);
    assert(n2[0] == job_prefix(k2)[0]);
    assert(k1 == k2);
    let p = job_prefix(k1);
    assert(n1.len() == p.len() + c1.len());
    assert(n2.len() == p.len() + c2.len());
    assert forall|i: int| 0 <= i < c1.len() implies c1[i] == c2[i] by {
        assert(n1[p.len() + i] == c1[i]);
        assert(n2[p.len() + i] == c2[i]);
    }
    assert(c1 =~= c2);
}

/// The task and the claim that a job's name stands for, where it is the name
/// of a volume job.
pub open spec fn job_name_parts(name: Seq<char>) -> Option<(JobKind, Seq<char>)> {
    if "delete-"@.is_prefix_of(name) {
        Some((JobKind::Delete, name.skip("delete-"@.len() as int)))
    } else if "restore-"@.is_prefix_of(name) {
        Some((JobKind::Restore, name.skip("restore-"@.len() as int)))
    } else {
        None
    }
}

/// Taking a job's name apart gives back the task and the claim it was made
/// from.
pub proof fn lemma_job_name_inverse(kind: JobKind, claim: Seq<char>)
    ensures
        job_name_parts(job_name_of(kind, claim)) == Some((kind, claim)),
{
    reveal_strlit("delete-");
    reveal_strlit("restore-");
    let name = job_name_of(kind, claim);
    let p = job_prefix(kind);
    assert(name.subrange(0, p.len() as int) =~= p);
    assert(name.skip(p.len() as int) =~= claim);
    match kind {
        JobKind::Delete => {},
        JobKind::Restore => {
            assert(name[0] == 'r');
            assert("delete-"@[0] == 'd');
            if "delete-"@.is_prefix_of(name) {
                assert(name.subrange(0, 7)[0] == "delete-"@[0]);
            }
        },
    }
}

/// The broker ordinal in a claim's name: what follows the last `-`. A name
/// without `-` holds none.
pub open spec fn node_id_of(claim: Seq<char>) -> Option<Seq<char>> {
    let dash = last_dash(claim);
    if dash < 0 {
        None
    } else {
        Some(claim.skip(dash + 1))
    }
}

/// A claim's name splits at its last dash into the stateful set's name, the
/// dash, and the ordinal, which holds no dash itself; a name without a dash
/// has no ordinal.
pub proof fn lemma_node_id_splits(claim: Seq<char>)
    ensures
        match node_id_of(claim) {
            Some(node) => {
                &&& dash_free(node)
                &&& exists|set_name: Seq<char>| claim == set_name + seq!['-'] + node
            },
            None => dash_free(claim),
        },
{
    lemma_last_dash(claim);
    let dash = last_dash(claim);
    if dash >= 0 {
        let node = claim.skip(dash + 1);
        let set_name = claim.take(dash);
        assert(claim =~= set_name + seq!['-'] + node);
    }
}

/// The broker ordinal in a claim's name.
pub fn node_id(claim: &str) -> (node: Option<String>)
    ensures
        opt_view(node) == node_id_of(claim@),
{
    match find_last_dash(claim) {
        Some(dash) => {
            proof {
                lemma_last_dash(claim@);
            }
            let n = claim.unicode_len();
            let tail = claim.substring_char(dash + 1, n);
            Some(String::from_str(tail))
        },
        None => None,
    }
}

/// The job that clears the data directory on the volume of `claim`.
pub open spec fn deletion_job(claim: Seq<char>) -> VolumeJobView {
    VolumeJobView {
        name: job_name_of(JobKind::Delete, claim),
        service_account_name: None,
        container_name: "delete-zeebe"@,
        image: "busybox:latest"@,
        command: seq!["/bin/sh"@, "-c"@, "rm -rf /usr/local/zeebe/data/*"@],
        env: None,
        volume_name: "data"@,
        mount_path: "/usr/local/zeebe/data"@,
        claim_name: claim,
        restart_policy: "Never"@,
    }
}

/// The job for `claim`'s volume that clears the data directory, or the
/// reason why there is none.
pub open spec fn deletion_job_for(claim: Claim) -> Result<VolumeJobView, JobError> {
    match claim.name {
        Some(name) => Ok(deletion_job(name@)),
        None => Err(JobError::MissingClaimName),
    }
}

/// The environment of a restore job: what the brokers' container has,
/// followed by the broker's own ordinal.
pub open spec fn restoration_env(inherited: Option<Vec<EnvVar>>, node: Seq<char>) -> Seq<
    EnvVarView,
> {
    let base = match inherited {
        Some(env) => env_view(env@),
        None => Seq::empty(),
    };
    base.push(
        EnvVarView { name: "ZEEBE_BROKER_CLUSTER_NODEID"@, value: Some(node), value_from: None },
    )
}

/// The command line of the workflow engine's restore procedure.
pub open spec fn restoration_command(backup_id: u64) -> Seq<Seq<char>> {
    seq!["/usr/local/zeebe/bin/restore"@, "--backupId="@ + decimal(backup_id as nat)]
}

/// The job that restores backup `backup_id` onto the volume of `claim`, run
/// as the broker that the claim's name gives, with the image, service account
/// and environment of the first container of `brokers`; or the reason why
/// there is none.
pub open spec fn restoration_job_for(backup_id: u64, claim: Claim, brokers: BrokerSet) -> Result<
    VolumeJobView,
    JobError,
> {
    if claim.name is None {
        Err(JobError::MissingClaimName)
    } else if node_id_of(claim.name->0@) is None {
        Err(JobError::MissingNodeId)
    } else if brokers.pod_spec is None {
        Err(JobError::MissingPodSpec)
    } else if brokers.pod_spec->0.containers@.len() == 0 {
        Err(JobError::MissingContainer)
    } else if brokers.pod_spec->0.containers@[0].image is None {
        Err(JobError::MissingImage)
    } else {
        let name = claim.name->0@;
        let pod = brokers.pod_spec->0;
        let container = pod.containers@[0];
        Ok(
            VolumeJobView {
                name: job_name_of(JobKind::Restore, name),
                service_account_name: opt_view(pod.service_account_name),
                container_name: "restore-zeebe"@,
                image: container.image->0@,
                command: restoration_command(backup_id),
                env: Some(restoration_env(container.env, node_id_of(name)->0)),
                volume_name: "data"@,
                mount_path: "/usr/local/zeebe/data"@,
                claim_name: name,
                restart_policy: "Never"@,
            },
        )
    }
}

/// A copy of an optional string.
fn clone_opt(text: &Option<String>) -> (copy: Option<String>)
    ensures
        opt_view(copy) == opt_view(*text),
{
    match text {
        Some(s) => Some(s.clone()),
        None => None,
    }
}

/// A copy of a list of environment variables.
fn clone_env(env: &Vec<EnvVar>) -> (copy: Vec<EnvVar>)
    ensures
        env_view(copy@) == env_view(env@),
{
    let mut copy: Vec<EnvVar> = Vec::new();
    let mut i: usize = 0;
    while i < env.len()
        invariant
            i <= env.len(),
            copy@.len() == i,
            forall|k: int| 0 <= k < i ==> copy@[k]@ == env@[k]@,
        decreases env.len() - i,
    {
        let var = &env[i];
        copy.push(
            EnvVar {
                name: var.name.clone(),
                value: clone_opt(&var.value),
                value_from: clone_opt(&var.value_from),
            },
        );
        i += 1;
    }
    assert(env_view(copy@) =~= env_view(env@));
    copy
}

/// Builds the job that wipes the volume of `pvc`: named `delete-<claim>`, it
/// mounts that one claim and removes everything under the brokers' data
/// directory.
pub fn zeebe_data_deletion_job(pvc: &Claim) -> (job: Result<VolumeJob, JobError>)
    ensures
        match job {
            Ok(j) => deletion_job_for(*pvc) == Ok::<VolumeJobView, JobError>(j@),
            Err(e) => deletion_job_for(*pvc) == Err::<VolumeJobView, JobError>(e),
        },
{
    let name = match &pvc.name {
        Some(name) => name,
        None => {
            return Err(JobError::MissingClaimName);
        },
    };
    let mut command: Vec<String> = Vec::new();
    command.push(String::from_str("/bin/sh"));
    command.push(String::from_str("-c"));
    command.push(String::from_str("rm -rf /usr/local/zeebe/data/*"));
    let job = VolumeJob {
        name: job_name(JobKind::Delete, name.as_str()),
        service_account_name: None,
        container_name: String::from_str("delete-zeebe"),
        image: String::from_str("busybox:latest"),
        command,
        env: None,
        volume_name: String::from_str("data"),
        mount_path: String::from_str("/usr/local/zeebe/data"),
        claim_name: name.clone(),
        restart_policy: String::from_str("Never"),
    };
    assert(job@.command =~= deletion_job(name@).command);
    Ok(job)
}

/// Builds the job that restores `backup` onto the volume of `pvc`: named
/// `restore-<claim>`, it mounts that one claim and runs the workflow engine's
/// restore procedure for the backup, as the broker whose ordinal ends the
/// claim's name, with what the first container of `sfs` is run with.
pub fn zeebe_data_restoration_job(backup: &Backup, pvc: &Claim, sfs: &BrokerSet) -> (job: Result<
    VolumeJob,
    JobError,
>)
    ensures
        match job {
            Ok(j) => restoration_job_for(backup.id, *pvc, *sfs) == Ok::<VolumeJobView, JobError>(
                j@,
            ),
            Err(e) => restoration_job_for(backup.id, *pvc, *sfs) == Err::<VolumeJobView, JobError>(
                e,
            ),
        },
{
    let name = match &pvc.name {
        Some(name) => name,
        None => {
            return Err(JobError::MissingClaimName);
        },
    };
    let node = match node_id(name.as_str()) {
        Some(node) => node,
        None => {
            return Err(JobError::MissingNodeId);
        },
    };
    let pod_spec = match &sfs.pod_spec {
        Some(pod_spec) => pod_spec,
        None => {
            return Err(JobError::MissingPodSpec);
        },
    };
    if pod_spec.containers.len() == 0 {
        return Err(JobError::MissingContainer);
    }
    let container = &pod_spec.containers[0];
    let mut envs = match &container.env {
        Some(env) => clone_env(env),
        None => Vec::new(),
    };
    envs.push(
        EnvVar {
            name: String::from_str("ZEEBE_BROKER_CLUSTER_NODEID"),
            value: Some(node),
            value_from: None,
        },
    );
    let image = match &container.image {
        Some(image) => image.clone(),
        None => {
            return Err(JobError::MissingImage);
        },
    };
    let mut backup_flag = String::from_str("--backupId=");
    push_decimal(&mut backup_flag, backup.id);
    let mut command: Vec<String> = Vec::new();
    command.push(String::from_str("/usr/local/zeebe/bin/restore"));
    command.push(backup_flag);
    let job = VolumeJob {
        name: job_name(JobKind::Restore, name.as_str()),
        service_account_name: clone_opt(&pod_spec.service_account_name),
        container_name: String::from_str("restore-zeebe"),
        image,
        command,
        env: Some(envs),
        volume_name: String::from_str("data"),
        mount_path: String::from_str("/usr/local/zeebe/data"),
        claim_name: name.clone(),
        restart_policy: String::from_str("Never"),
    };
    assert(job@.command =~= restoration_command(backup.id));
    assert(job@.env->0 =~= restoration_env(container.env, node_id_of(name@)->0));
    Ok(job)
}

/// No two jobs of a restore share a name: the job that wipes a volume and
/// the job that restores one are named apart, and so are two jobs of the
/// same kind for claims of different names.
pub proof fn lemma_jobs_named_apart(backup_id: u64, brokers: BrokerSet, first: Claim, second: Claim)
    ensures
        deletion_job_for(first) is Ok && restoration_job_for(backup_id, second, brokers) is Ok
            ==> deletion_job_for(first)->Ok_0.name != restoration_job_for(
            backup_id,
            second,
            brokers,
        )->Ok_0.name,
        deletion_job_for(first) is Ok && deletion_job_for(second) is Ok && first.name->0@
            != second.name->0@ ==> deletion_job_for(first)->Ok_0.name != deletion_job_for(
            second,
        )->Ok_0.name,
        restoration_job_for(backup_id, first, brokers) is Ok && restoration_job_for(
            backup_id,
            second,
            brokers,
        ) is Ok && first.name->0@ != second.name->0@ ==> restoration_job_for(
            backup_id,
            first,
            brokers,
        )->Ok_0.name != restoration_job_for(backup_id, second, brokers)->Ok_0.name,
{
    if first.name is Some && second.name is Some {
        let a = first.name->0@;
        let b = second.name->0@;
        if job_name_of(JobKind::Delete, a) == job_name_of(JobKind::Restore, b) {
            lemma_job_name_injective(JobKind::Delete, a, JobKind::Restore, b);
        }
        if job_name_of(JobKind::Delete, a) == job_name_of(JobKind::Delete, b) {
            lemma_job_name_injective(JobKind::Delete, a, JobKind::Delete, b);
        }
        if job_name_of(JobKind::Restore, a) == job_name_of(JobKind::Restore, b) {
            lemma_job_name_injective(JobKind::Restore, a, JobKind::Restore, b);
        }
    }
}

/// One step in the life of a volume job.
#[derive(Clone, Debug, PartialEq, Eq)]
pub enum JobStep {
    /// Hand the job to the cluster.
    Create(VolumeJob),
    /// Wait until the cluster reports the job of this name as complete.
    Await(String),
    /// Remove the job of this name.
    Delete(String),
}

pub enum JobStepView {
    Create(VolumeJobView),
    Await(Seq<char>),
    Delete(Seq<char>),
}

impl View for JobStep {
    type V = JobStepView;

    open spec fn view(&self) -> JobStepView {
        match self {
            JobStep::Create(job) => JobStepView::Create(job@),
            JobStep::Await(name) => JobStepView::Await(name@),
            JobStep::Delete(name) => JobStepView::Delete(name@),
        }
    }
}

/// The steps of a list, each by its view.
pub open spec fn steps_view(steps: Seq<JobStep>) -> Seq<JobStepView> {
    Seq::new(steps.len(), |i: int| steps[i]@)
}

/// The steps that run one job per claim: first every job is created, in the
/// order of the claims, so that the cluster can run them side by side; then,
/// claim by claim, the job is awaited and removed.
pub open spec fn job_steps(kind: JobKind, jobs: Seq<VolumeJobView>) -> Seq<JobStepView> {
    Seq::new(jobs.len(), |i: int| JobStepView::Create(jobs[i])) + Seq::new(
        2 * jobs.len(),
        |k: int|
            if k % 2 == 0 {
                JobStepView::Await(job_name_of(kind, jobs[k / 2].claim_name))
            } else {
                JobStepView::Delete(job_name_of(kind, jobs[k / 2].claim_name))
            },
    )
}

/// The jobs of a list, each by its view.
pub open spec fn jobs_view(jobs: Seq<VolumeJob>) -> Seq<VolumeJobView> {
    Seq::new(jobs.len(), |i: int| jobs[i]@)
}

/// Lays out the steps for `jobs`, which are of `kind`: create all, then
/// await and remove each.
pub fn plan_jobs(kind: JobKind, jobs: Vec<VolumeJob>) -> (steps: Vec<JobStep>)
    ensures
        steps_view(steps@) == job_steps(kind, jobs_view(jobs@)),
{
    let ghost all = jobs_view(jobs@);
    let n = jobs.len();
    let mut names: Vec<String> = Vec::new();
    let mut i: usize = 0;
    while i < n
        invariant
            i <= n,
            n == jobs.len(),
            names@.len() == i,
            forall|k: int| 0 <= k < i ==> (#[trigger] names@[k])@ == job_name_of(kind, jobs@[k].claim_name@),
        decreases n - i,
    {
        names.push(job_name(kind, jobs[i].claim_name.as_str()));
        i += 1;
    }
    let mut steps: Vec<JobStep> = Vec::new();
    let mut jobs = jobs;
    let mut created: Vec<VolumeJob> = Vec::new();
    // Creation goes by the order of the claims, so the jobs are taken from
    // the back into a stack first.
    while jobs.len() > 0
        invariant
            jobs@.len() + created@.len() == n,
            forall|k: int| 0 <= k < jobs@.len() ==> (#[trigger] jobs@[k])@ == all[k],
            forall|k: int|
                0 <= k < created@.len() ==> (#[trigger] created@[k])@ == all[n - 1 - k],
            all.len() == n,
        decreases jobs.len(),
    {
        let job = jobs.pop().unwrap();
        created.push(job);
    }
    while created.len() > 0
        invariant
            steps@.len() + created@.len() == n,
            forall|k: int|
                0 <= k < created@.len() ==> (#[trigger] created@[k])@ == all[n - 1 - k],
            forall|k: int|
                0 <= k < steps@.len() ==> (#[trigger] steps@[k])@ == JobStepView::Create(all[k]),
            all.len() == n,
        decreases created.len(),
    {
        let job = created.pop().unwrap();
        steps.push(JobStep::Create(job));
    }
    let mut j: usize = 0;
    while j < n
        invariant
            j <= n,
            names@.len() == n,
            all.len() == n,
            steps@.len() == n + 2 * j,
            forall|k: int| 0 <= k < n ==> (#[trigger] names@[k])@ == job_name_of(kind, all[k].claim_name),
            forall|k: int| 0 <= k < n ==> (#[trigger] steps@[k])@ == JobStepView::Create(all[k]),
            forall|k: int|
                0 <= k < 2 * j ==> (#[trigger] steps@[n + k])@ == job_steps(kind, all)[n + k],
        decreases n - j,
    {
        let ghost before = steps@;
        steps.push(JobStep::Await(names[j].clone()));
        steps.push(JobStep::Delete(names[j].clone()));
        proof {
            assert forall|k: int| 0 <= k < 2 * (j + 1) implies (#[trigger] steps@[n + k])@
                == job_steps(kind, all)[n + k] by {
                if k < 2 * j {
                    assert(steps@[n + k] == before[n + k]);
                } else if k == 2 * j {
                    assert(k / 2 == j as int);
                } else {
                    assert(k == 2 * j + 1);
                    assert(k / 2 == j as int);
                }
            }
            assert forall|k: int| 0 <= k < n implies (#[trigger] steps@[k])@
                == JobStepView::Create(all[k]) by {
                assert(steps@[k] == before[k]);
            }
        }
        j += 1;
    }
    proof {
        let planned = job_steps(kind, all);
        assert(planned.len() == 3 * n);
        assert forall|k: int| 0 <= k < 3 * n implies steps_view(steps@)[k] == planned[k] by {
            if k < n {
                assert(steps@[k]@ == JobStepView::Create(all[k]));
            } else {
                assert(steps@[n + (k - n)]@ == planned[n + (k - n)]);
            }
        }
        assert(steps_view(steps@) =~= planned);
    }
    steps
}

} // verus!
