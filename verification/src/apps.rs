//! The platform's workloads and their scale.
//!
//! Before any data is touched every deployment and stateful set of the
//! platform is scaled to zero. What each of them ran with is recorded first,
//! and the record is what the restart works from.

use vstd::map::*;
use vstd::prelude::*;

verus! {

/// The kinds of workload that the platform consists of.
#[derive(Clone, Copy, Debug, PartialEq, Eq, Structural, Hash)]
pub enum WorkloadKind {
    Deployment,
    StatefulSet,
}

/// A deployment or stateful set as the cluster lists it.
#[derive(Clone, Debug, PartialEq, Eq)]
pub struct Workload {
    pub name: Option<String>,
    pub replicas: Option<i32>,
}

/// Why the workloads could not be recorded.
#[derive(Clone, Copy, Debug, PartialEq, Eq, Structural, Hash)]
pub enum AppsError {
    /// A workload has no replica count configured.
    MissingReplicas,
    /// A workload carries no name.
    MissingName,
}

/// The number of replicas that one workload ran with.
#[derive(Clone, Debug, PartialEq, Eq)]
pub struct Scale {
    pub name: String,
    pub replicas: i32,
}

/// What every workload of the platform ran with before the shutdown.
#[derive(Clone, Debug, PartialEq, Eq)]
pub struct RestartableApps {
    pub deployments: Vec<Scale>,
    pub statefulsets: Vec<Scale>,
}

/// An order to set the replica count of one workload.
#[derive(Clone, Debug, PartialEq, Eq)]
pub struct ScaleCommand {
    pub kind: WorkloadKind,
    pub name: String,
    pub replicas: i32,
}

pub struct ScaleCommandView {
    pub kind: WorkloadKind,
    pub name: Seq<char>,
    pub replicas: i32,
}

impl View for ScaleCommand {
    type V = ScaleCommandView;

    open spec fn view(&self) -> ScaleCommandView {
        ScaleCommandView { kind: self.kind, name: self.name@, replicas: self.replicas }
    }
}

/// The orders of a list, each by its view.
pub open spec fn plan_view(plan: Seq<ScaleCommand>) -> Seq<ScaleCommandView> {
    Seq::new(plan.len(), |i: int| plan[i]@)
}

/// No two records are about the same workload.
pub open spec fn distinct_names(records: Seq<Scale>) -> bool {
    forall|i: int, j: int|
        0 <= i < j < records.len() ==> (#[trigger] records[i]).name@ != (#[trigger] records[j]).name@
}

/// The records as a map from a workload's name to its replica count. Of two
/// records about one workload the later counts.
pub open spec fn scale_map(records: Seq<Scale>) -> Map<Seq<char>, i32>
    decreases records.len(),
{
    if records.len() == 0 {
        Map::empty()
    } else {
        scale_map(records.drop_last()).insert(records.last().name@, records.last().replicas)
    }
}

/// Every workload of the listing has a name and a replica count.
pub open spec fn complete(listing: Seq<Workload>) -> bool {
    forall|i: int|
        0 <= i < listing.len() ==> (#[trigger] listing[i]).name is Some && listing[i].replicas
            is Some
}

/// What is wrong with the first workload of the listing that lacks its
/// replica count or its name.
pub open spec fn first_fault(listing: Seq<Workload>) -> Option<AppsError>
    decreases listing.len(),
{
    if listing.len() == 0 {
        None
    } else if listing[0].replicas is None {
        Some(AppsError::MissingReplicas)
    } else if listing[0].name is None {
        Some(AppsError::MissingName)
    } else {
        first_fault(listing.drop_first())
    }
}

/// The listing as a map from a workload's name to its replica count. Of two
/// items about one workload the later counts.
pub open spec fn listed_scale(listing: Seq<Workload>) -> Map<Seq<char>, i32>
    decreases listing.len(),
{
    if listing.len() == 0 {
        Map::empty()
    } else {
        listed_scale(listing.drop_last()).insert(
            listing.last().name->0@,
            listing.last().replicas->0,
        )
    }
}

impl RestartableApps {
    /// No workload is recorded twice.
    pub open spec fn wf(self) -> bool {
        distinct_names(self.deployments@) && distinct_names(self.statefulsets@)
    }
}

/// The names that `scale_map` knows are those of the records, and where no
/// workload is recorded twice each has the count of its record.
pub proof fn lemma_scale_map(records: Seq<Scale>)
    ensures
        forall|name: Seq<char>|
            scale_map(records).dom().contains(name) <==> exists|i: int|
                0 <= i < records.len() && (#[trigger] records[i]).name@ == name,
        distinct_names(records) ==> forall|i: int|
            0 <= i < records.len() ==> scale_map(records)[(#[trigger] records[i]).name@]
                == records[i].replicas,
    decreases records.len(),
{
    if records.len() > 0 {
        let front = records.drop_last();
        let last = records.last();
        lemma_scale_map(front);
        assert forall|name: Seq<char>|
            scale_map(records).dom().contains(name) <==> exists|i: int|
                0 <= i < records.len() && (#[trigger] records[i]).name@ == name by {
            if scale_map(records).dom().contains(name) {
                if name == last.name@ {
                    assert(records[records.len() - 1].name@ == name);
                } else {
                    assert(scale_map(records) == scale_map(front).insert(last.name@, last.replicas));
                    assert(scale_map(front).dom().contains(name));
                    let i = choose|i: int| 0 <= i < front.len() && (#[trigger] front[i]).name@ == name;
                    assert(records[i].name@ == name);
                }
            }
            if exists|i: int| 0 <= i < records.len() && (#[trigger] records[i]).name@ == name {
                let i = choose|i: int| 0 <= i < records.len() && (#[trigger] records[i]).name@ == name;
                assert(scale_map(records) == scale_map(front).insert(last.name@, last.replicas));
                if i < front.len() {
                    assert(front[i].name@ == name);
                    assert(scale_map(front).dom().contains(name));
                } else {
                    assert(name == last.name@);
                }
                assert(scale_map(records).dom().contains(name));
            }
        }
        if distinct_names(records) {
            assert(distinct_names(front)) by {
                assert forall|i: int, j: int| 0 <= i < j < front.len() implies (#[trigger] front[i]).name@
                    != (#[trigger] front[j]).name@ by {
                    assert(records[i].name@ != records[j].name@);
                }
            }
            assert forall|i: int| 0 <= i < records.len() implies scale_map(records)[(#[trigger] records[i]).name@]
                == records[i].replicas by {
                if i < front.len() {
                    assert(front[i] == records[i]);
                    assert(records[i].name@ != records[records.len() - 1].name@);
                }
            }
        }
    }
}

/// Index of the record about the workload `name`.
fn find_record(records: &Vec<Scale>, name: &String) -> (found: Option<usize>)
    ensures
        match found {
            Some(i) => i < records.len() && records@[i as int].name@ == name@,
            None => forall|k: int| 0 <= k < records.len() ==> records@[k].name@ != name@,
        },
{
    let mut i: usize = 0;
    while i < records.len()
        invariant
            i <= records.len(),
            forall|k: int| 0 <= k < i ==> records@[k].name@ != name@,
        decreases records.len() - i,
    {
        if records[i].name == *name {
            return Some(i);
        }
        i += 1;
    }
    None
}

/// Records what each workload of `listing` runs with.
///
/// Succeeds when every workload has a name and a replica count. No workload
/// is then recorded twice, and each has the count that the listing gives it.
/// Otherwise it reports the first workload that lacks one of the two.
pub fn record_scale(listing: &Vec<Workload>) -> (records: Result<Vec<Scale>, AppsError>)
    ensures
        match records {
            Ok(r) => {
                &&& complete(listing@)
                &&& distinct_names(r@)
                &&& scale_map(r@) == listed_scale(listing@)
            },
            Err(e) => first_fault(listing@) == Some(e),
        },
        records is Ok <==> complete(listing@),
{
    let mut records: Vec<Scale> = Vec::new();
    let mut i: usize = 0;
    assert(listing@.take(0) =~= Seq::<Workload>::empty());
    assert(listing@.skip(0) =~= listing@);
    while i < listing.len()
        invariant
            i <= listing.len(),
            complete(listing@.take(i as int)),
            distinct_names(records@),
            scale_map(records@) == listed_scale(listing@.take(i as int)),
            first_fault(listing@) == first_fault(listing@.skip(i as int)),
        decreases listing.len() - i,
    {
        let item = &listing[i];
        let ghost rest = listing@.skip(i as int);
        assert(rest[0] == listing@[i as int]);
        let replicas = match item.replicas {
            Some(replicas) => replicas,
            None => {
                proof {
                    lemma_incomplete(listing@, i as int);
                }
                return Err(AppsError::MissingReplicas);
            },
        };
        let name = match &item.name {
            Some(name) => name,
            None => {
                proof {
                    lemma_incomplete(listing@, i as int);
                }
                return Err(AppsError::MissingName);
            },
        };
        let ghost before = records@;
        match find_record(&records, name) {
            Some(at) => {
                records[at].replicas = replicas;
                proof {
                    let after = records@;
                    assert(distinct_names(after)) by {
                        assert forall|a: int, b: int| 0 <= a < b < after.len() implies (#[trigger] after[a]).name@
                            != (#[trigger] after[b]).name@ by {
                            assert(before[a].name@ != before[b].name@);
                        }
                    }
                    lemma_scale_map(before);
                    lemma_scale_map(after);
                    assert(scale_map(after) =~= scale_map(before).insert(name@, replicas)) by {
                        assert forall|n: Seq<char>| scale_map(after).dom().contains(n) implies scale_map(
                            before,
                        ).insert(name@, replicas).dom().contains(n) by {
                            let k = choose|k: int| 0 <= k < after.len() && (#[trigger] after[k]).name@ == n;
                            assert(before[k].name@ == n);
                        }
                        assert forall|n: Seq<char>| scale_map(before).insert(name@, replicas).dom().contains(
                            n,
                        ) implies scale_map(after).dom().contains(n) by {
                            if n == name@ {
                                assert(after[at as int].name@ == n);
                            } else {
                                let k = choose|k: int| 0 <= k < before.len() && (#[trigger] before[k]).name@ == n;
                                assert(after[k].name@ == n);
                            }
                        }
                        assert forall|n: Seq<char>| scale_map(after).dom().contains(n) implies scale_map(
                            after,
                        )[n] == scale_map(before).insert(name@, replicas)[n] by {
                            let k = choose|k: int| 0 <= k < after.len() && (#[trigger] after[k]).name@ == n;
                            assert(scale_map(after)[after[k].name@] == after[k].replicas);
                            if k != at {
                                assert(before[k] == after[k]);
                                assert(scale_map(before)[before[k].name@] == before[k].replicas);
                                if k < at {
                                    assert(before[k].name@ != before[at as int].name@);
                                } else {
                                    assert(before[at as int].name@ != before[k].name@);
                                }
                            }
                        }
                    }
                }
            },
            None => {
                records.push(Scale { name: name.clone(), replicas });
                proof {
                    let after = records@;
                    assert(after.drop_last() =~= before);
                    assert(distinct_names(after)) by {
                        assert forall|a: int, b: int| 0 <= a < b < after.len() implies (#[trigger] after[a]).name@
                            != (#[trigger] after[b]).name@ by {
                            if b < before.len() {
                                assert(before[a].name@ != before[b].name@);
                            } else {
                                assert(before[a].name@ != name@);
                            }
                        }
                    }
                }
            },
        }
        proof {
            let upto = listing@.take(i as int + 1);
            assert(upto.drop_last() =~= listing@.take(i as int));
            assert(upto.last() == listing@[i as int]);
            assert(complete(upto)) by {
                assert forall|k: int| 0 <= k < upto.len() implies (#[trigger] upto[k]).name is Some
                    && upto[k].replicas is Some by {
                    if k < i {
                        assert(listing@.take(i as int)[k] == upto[k]);
                    }
                }
            }
            assert(rest.drop_first() =~= listing@.skip(i as int + 1));
        }
        i += 1;
    }
    proof {
        assert(listing@.take(i as int) =~= listing@);
    }
    Ok(records)
}

/// A listing with a workload that lacks its name or its replica count is
/// not complete.
proof fn lemma_incomplete(listing: Seq<Workload>, i: int)
    requires
        0 <= i < listing.len(),
        listing[i].name is None || listing[i].replicas is None,
    ensures
        !complete(listing),
{
}

/// A complete listing has no fault, and an incomplete one has.
pub proof fn lemma_first_fault(listing: Seq<Workload>)
    ensures
        first_fault(listing) is None <==> complete(listing),
    decreases listing.len(),
{
    if listing.len() > 0 {
        let rest = listing.drop_first();
        lemma_first_fault(rest);
        if listing[0].replicas is Some && listing[0].name is Some {
            if complete(rest) {
                assert forall|i: int| 0 <= i < listing.len() implies (#[trigger] listing[i]).name is Some
                    && listing[i].replicas is Some by {
                    if i > 0 {
                        assert(rest[i - 1] == listing[i]);
                    }
                }
            } else {
                let k = choose|k: int|
                    0 <= k < rest.len() && !((#[trigger] rest[k]).name is Some && rest[k].replicas is Some);
                assert(rest[k] == listing[k + 1]);
            }
        }
    }
}

/// The orders that set each recorded workload of `kind` to zero replicas
/// (`stop`) or to its recorded count.
pub open spec fn scale_plan(kind: WorkloadKind, records: Seq<Scale>, stop: bool) -> Seq<
    ScaleCommandView,
> {
    Seq::new(
        records.len(),
        |i: int|
            ScaleCommandView {
                kind,
                name: records[i].name@,
                replicas: if stop {
                    0
                } else {
                    records[i].replicas
                },
            },
    )
}

/// The orders of a shutdown: every recorded deployment, then every recorded
/// stateful set, to zero replicas.
pub open spec fn shutdown_plan(apps: RestartableApps) -> Seq<ScaleCommandView> {
    scale_plan(WorkloadKind::Deployment, apps.deployments@, true) + scale_plan(
        WorkloadKind::StatefulSet,
        apps.statefulsets@,
        true,
    )
}

/// The orders of a restart: every recorded deployment, then every recorded
/// stateful set, to its recorded count.
pub open spec fn start_plan(apps: RestartableApps) -> Seq<ScaleCommandView> {
    scale_plan(WorkloadKind::Deployment, apps.deployments@, false) + scale_plan(
        WorkloadKind::StatefulSet,
        apps.statefulsets@,
        false,
    )
}

/// What is wrong with the first workload, deployments first, that lacks its
/// replica count or its name.
pub open spec fn shutdown_fault(deployments: Seq<Workload>, statefulsets: Seq<Workload>) -> Option<
    AppsError,
> {
    match first_fault(deployments) {
        Some(e) => Some(e),
        None => first_fault(statefulsets),
    }
}

fn push_plan(plan: &mut Vec<ScaleCommand>, kind: WorkloadKind, records: &Vec<Scale>, stop: bool)
    ensures
        plan_view(final(plan)@) == plan_view(old(plan)@) + scale_plan(kind, records@, stop),
{
    let ghost start = plan_view(plan@);
    let mut i: usize = 0;
    assert(scale_plan(kind, records@, stop).take(0) =~= Seq::<ScaleCommandView>::empty());
    assert(start + Seq::<ScaleCommandView>::empty() =~= start);
    while i < records.len()
        invariant
            i <= records.len(),
            plan_view(plan@) == start + scale_plan(kind, records@, stop).take(i as int),
        decreases records.len() - i,
    {
        let ghost before = plan_view(plan@);
        let replicas: i32 = if stop {
            0
        } else {
            records[i].replicas
        };
        plan.push(ScaleCommand { kind, name: records[i].name.clone(), replicas });
        proof {
            let all = scale_plan(kind, records@, stop);
            assert(plan_view(plan@) =~= before.push(all[i as int]));
            assert(all.take(i as int + 1) =~= all.take(i as int).push(all[i as int]));
            assert(before.push(all[i as int]) =~= start + all.take(i as int + 1));
        }
        i += 1;
    }
    proof {
        let all = scale_plan(kind, records@, stop);
        assert(all.take(i as int) =~= all);
    }
}

/// Records what every workload of the platform runs with and plans the
/// shutdown.
///
/// Succeeds when every listed workload has a name and a replica count. The
/// record then gives each workload the count that the listing gives it, and
/// the plan scales every recorded workload to zero. Otherwise nothing is
/// planned, and the first workload that lacks one of the two is reported,
/// deployments before stateful sets.
pub fn shutdown_apps(deployments: &Vec<Workload>, statefulsets: &Vec<Workload>) -> (result: Result<
    (RestartableApps, Vec<ScaleCommand>),
    AppsError,
>)
    ensures
        match result {
            Ok((apps, plan)) => {
                &&& apps.wf()
                &&& scale_map(apps.deployments@) == listed_scale(deployments@)
                &&& scale_map(apps.statefulsets@) == listed_scale(statefulsets@)
                &&& plan_view(plan@) == shutdown_plan(apps)
            },
            Err(e) => shutdown_fault(deployments@, statefulsets@) == Some(e),
        },
        result is Ok <==> complete(deployments@) && complete(statefulsets@),
{
    proof {
        lemma_first_fault(deployments@);
        lemma_first_fault(statefulsets@);
    }
    let recorded_deployments = match record_scale(deployments) {
        Ok(records) => records,
        Err(e) => {
            return Err(e);
        },
    };
    let recorded_statefulsets = match record_scale(statefulsets) {
        Ok(records) => records,
        Err(e) => {
            return Err(e);
        },
    };
    let apps = RestartableApps {
        deployments: recorded_deployments,
        statefulsets: recorded_statefulsets,
    };
    let mut plan: Vec<ScaleCommand> = Vec::new();
    assert(plan_view(plan@) =~= Seq::<ScaleCommandView>::empty());
    push_plan(&mut plan, WorkloadKind::Deployment, &apps.deployments, true);
    push_plan(&mut plan, WorkloadKind::StatefulSet, &apps.statefulsets, true);
    assert(plan_view(plan@) =~= shutdown_plan(apps));
    Ok((apps, plan))
}

/// Plans the restart: every recorded workload back to its recorded count.
pub fn start_apps(restartable: &RestartableApps) -> (plan: Vec<ScaleCommand>)
    ensures
        plan_view(plan@) == start_plan(*restartable),
{
    let mut plan: Vec<ScaleCommand> = Vec::new();
    assert(plan_view(plan@) =~= Seq::<ScaleCommandView>::empty());
    push_plan(&mut plan, WorkloadKind::Deployment, &restartable.deployments, false);
    push_plan(&mut plan, WorkloadKind::StatefulSet, &restartable.statefulsets, false);
    assert(plan_view(plan@) =~= start_plan(*restartable));
    plan
}

/// The workload that an order is about.
pub open spec fn target(order: ScaleCommandView) -> (WorkloadKind, Seq<char>) {
    (order.kind, order.name)
}

/// The replica counts of a cluster after the orders of `plan` were carried
/// out one after the other.
pub open spec fn scaled(cluster: Map<(WorkloadKind, Seq<char>), i32>, plan: Seq<ScaleCommandView>) -> Map<
    (WorkloadKind, Seq<char>),
    i32,
>
    decreases plan.len(),
{
    if plan.len() == 0 {
        cluster
    } else {
        scaled(cluster, plan.drop_last()).insert(target(plan.last()), plan.last().replicas)
    }
}

/// No two orders of the plan are about the same workload.
pub open spec fn distinct_targets(plan: Seq<ScaleCommandView>) -> bool {
    forall|i: int, j: int|
        0 <= i < j < plan.len() ==> target(#[trigger] plan[i]) != target(#[trigger] plan[j])
}

/// Some order of the plan is about the workload `key`.
pub open spec fn targets(plan: Seq<ScaleCommandView>, key: (WorkloadKind, Seq<char>)) -> bool {
    exists|i: int| 0 <= i < plan.len() && target(#[trigger] plan[i]) == key
}

/// The workload `key` is on record in `apps`.
pub open spec fn recorded(apps: RestartableApps, key: (WorkloadKind, Seq<char>)) -> bool {
    match key.0 {
        WorkloadKind::Deployment => scale_map(apps.deployments@).dom().contains(key.1),
        WorkloadKind::StatefulSet => scale_map(apps.statefulsets@).dom().contains(key.1),
    }
}

/// The replica count that `apps` holds for the workload `key`.
pub open spec fn recorded_replicas(apps: RestartableApps, key: (WorkloadKind, Seq<char>)) -> i32 {
    match key.0 {
        WorkloadKind::Deployment => scale_map(apps.deployments@)[key.1],
        WorkloadKind::StatefulSet => scale_map(apps.statefulsets@)[key.1],
    }
}

/// Carrying out a plan changes the workloads that it has orders about, and
/// no others. Where no two orders are about the same workload, each of them
/// ends with the count of its order.
pub proof fn lemma_scaled(cluster: Map<(WorkloadKind, Seq<char>), i32>, plan: Seq<ScaleCommandView>)
    ensures
        forall|key: (WorkloadKind, Seq<char>)|
            #[trigger] scaled(cluster, plan).dom().contains(key) <==> cluster.dom().contains(key)
                || targets(plan, key),
        forall|key: (WorkloadKind, Seq<char>)|
            !targets(plan, key) ==> #[trigger] scaled(cluster, plan)[key] == cluster[key],
        distinct_targets(plan) ==> forall|i: int|
            0 <= i < plan.len() ==> scaled(cluster, plan)[target(#[trigger] plan[i])]
                == plan[i].replicas,
    decreases plan.len(),
{
    if plan.len() > 0 {
        let front = plan.drop_last();
        let last = plan.last();
        lemma_scaled(cluster, front);
        assert(scaled(cluster, plan) == scaled(cluster, front).insert(target(last), last.replicas));
        assert forall|key: (WorkloadKind, Seq<char>)| targets(front, key) implies targets(
            plan,
            key,
        ) by {
            let i = choose|i: int| 0 <= i < front.len() && target(#[trigger] front[i]) == key;
            assert(target(plan[i]) == key);
        }
        assert(targets(plan, target(last))) by {
            assert(target(plan[plan.len() - 1]) == target(last));
        }
        assert forall|key: (WorkloadKind, Seq<char>)| targets(plan, key) && key != target(
            last,
        ) implies targets(front, key) by {
            let i = choose|i: int| 0 <= i < plan.len() && target(#[trigger] plan[i]) == key;
            assert(target(front[i]) == key);
        }
        assert forall|key: (WorkloadKind, Seq<char>)| #[trigger]
            scaled(cluster, plan).dom().contains(key) <==> cluster.dom().contains(key) || targets(
                plan,
                key,
            ) by {
            if key != target(last) {
                assert(scaled(cluster, front).dom().contains(key) <==> cluster.dom().contains(key)
                    || targets(front, key));
            }
        }
        assert forall|key: (WorkloadKind, Seq<char>)| !targets(plan, key) implies #[trigger] scaled(
            cluster,
            plan,
        )[key] == cluster[key] by {
            assert(!targets(front, key));
            assert(scaled(cluster, front)[key] == cluster[key]);
        }
        if distinct_targets(plan) {
            assert(distinct_targets(front)) by {
                assert forall|i: int, j: int| 0 <= i < j < front.len() implies target(
                    #[trigger] front[i],
                ) != target(#[trigger] front[j]) by {
                    assert(target(plan[i]) != target(plan[j]));
                }
            }
            assert forall|i: int| 0 <= i < plan.len() implies scaled(cluster, plan)[target(
                #[trigger] plan[i],
            )] == plan[i].replicas by {
                if i < front.len() {
                    assert(front[i] == plan[i]);
                    assert(target(plan[i]) != target(plan[plan.len() - 1]));
                }
            }
        }
    }
}

/// The orders made from a record are about the recorded workloads, one order
/// for each.
pub proof fn lemma_plan_targets(apps: RestartableApps, stop: bool)
    requires
        apps.wf(),
    ensures
        ({
            let plan = scale_plan(WorkloadKind::Deployment, apps.deployments@, stop) + scale_plan(
                WorkloadKind::StatefulSet,
                apps.statefulsets@,
                stop,
            );
            &&& distinct_targets(plan)
            &&& forall|key: (WorkloadKind, Seq<char>)| targets(plan, key) <==> recorded(apps, key)
            &&& forall|i: int|
                0 <= i < plan.len() ==> recorded(apps, target(#[trigger] plan[i])) && plan[i].replicas
                    == if stop {
                    0
                } else {
                    recorded_replicas(apps, target(plan[i]))
                }
        }),
{
    let d = apps.deployments@;
    let s = apps.statefulsets@;
    let plan = scale_plan(WorkloadKind::Deployment, d, stop) + scale_plan(
        WorkloadKind::StatefulSet,
        s,
        stop,
    );
    lemma_scale_map(d);
    lemma_scale_map(s);
    assert forall|i: int| 0 <= i < plan.len() implies (#[trigger] plan[i]).kind == (if i < d.len() {
        WorkloadKind::Deployment
    } else {
        WorkloadKind::StatefulSet
    }) && plan[i].name == (if i < d.len() {
        d[i].name@
    } else {
        s[i - d.len()].name@
    }) by {}
    assert forall|i: int, j: int| 0 <= i < j < plan.len() implies target(#[trigger] plan[i])
        != target(#[trigger] plan[j]) by {
        if j < d.len() {
            assert(d[i].name@ != d[j].name@);
        } else if i >= d.len() {
            assert(s[i - d.len()].name@ != s[j - d.len()].name@);
        }
    }
    assert forall|key: (WorkloadKind, Seq<char>)| targets(plan, key) <==> recorded(apps, key) by {
        if targets(plan, key) {
            let i = choose|i: int| 0 <= i < plan.len() && target(#[trigger] plan[i]) == key;
            if i < d.len() {
                assert(d[i].name@ == key.1);
            } else {
                assert(s[i - d.len()].name@ == key.1);
            }
        }
        if recorded(apps, key) {
            match key.0 {
                WorkloadKind::Deployment => {
                    let i = choose|i: int| 0 <= i < d.len() && (#[trigger] d[i]).name@ == key.1;
                    assert(target(plan[i]) == key);
                },
                WorkloadKind::StatefulSet => {
                    let i = choose|i: int| 0 <= i < s.len() && (#[trigger] s[i]).name@ == key.1;
                    assert(target(plan[i + d.len()]) == key);
                },
            }
        }
    }
    assert forall|i: int| 0 <= i < plan.len() implies recorded(apps, target(#[trigger] plan[i]))
        && plan[i].replicas == if stop {
        0
    } else {
        recorded_replicas(apps, target(plan[i]))
    } by {
        if i < d.len() {
            assert(scale_map(d)[d[i].name@] == d[i].replicas);
            assert(scale_map(d).dom().contains(d[i].name@));
        } else {
            let k = i - d.len();
            assert(scale_map(s)[s[k].name@] == s[k].replicas);
            assert(scale_map(s).dom().contains(s[k].name@));
        }
    }
}

/// After a shutdown every recorded workload runs no replica, and no other
/// workload was touched.
pub proof fn lemma_shutdown_stops_recorded(
    apps: RestartableApps,
    cluster: Map<(WorkloadKind, Seq<char>), i32>,
)
    requires
        apps.wf(),
    ensures
        forall|key: (WorkloadKind, Seq<char>)|
            recorded(apps, key) ==> #[trigger] scaled(cluster, shutdown_plan(apps))[key] == 0,
        forall|key: (WorkloadKind, Seq<char>)|
            !recorded(apps, key) ==> #[trigger] scaled(cluster, shutdown_plan(apps))[key]
                == cluster[key],
{
    let plan = shutdown_plan(apps);
    lemma_plan_targets(apps, true);
    lemma_scaled(cluster, plan);
    assert forall|key: (WorkloadKind, Seq<char>)| recorded(apps, key) implies #[trigger] scaled(
        cluster,
        plan,
    )[key] == 0 by {
        assert(targets(plan, key));
        let i = choose|i: int| 0 <= i < plan.len() && target(#[trigger] plan[i]) == key;
        assert(scaled(cluster, plan)[target(plan[i])] == plan[i].replicas);
    }
    assert forall|key: (WorkloadKind, Seq<char>)| !recorded(apps, key) implies #[trigger] scaled(
        cluster,
        plan,
    )[key] == cluster[key] by {
        assert(!targets(plan, key));
    }
}

/// After a restart every recorded workload runs with exactly its recorded
/// count, whatever that count is and whatever the workload ran with before,
/// and no other workload was touched.
pub proof fn lemma_restart_restores_recorded(
    apps: RestartableApps,
    cluster: Map<(WorkloadKind, Seq<char>), i32>,
)
    requires
        apps.wf(),
    ensures
        forall|key: (WorkloadKind, Seq<char>)|
            recorded(apps, key) ==> #[trigger] scaled(cluster, start_plan(apps))[key]
                == recorded_replicas(apps, key),
        forall|key: (WorkloadKind, Seq<char>)|
            !recorded(apps, key) ==> #[trigger] scaled(cluster, start_plan(apps))[key]
                == cluster[key],
        forall|key: (WorkloadKind, Seq<char>)|
            #[trigger] scaled(cluster, start_plan(apps)).dom().contains(key)
                <==> cluster.dom().contains(key) || recorded(apps, key),
{
    let plan = start_plan(apps);
    lemma_plan_targets(apps, false);
    lemma_scaled(cluster, plan);
    assert forall|key: (WorkloadKind, Seq<char>)| recorded(apps, key) implies #[trigger] scaled(
        cluster,
        plan,
    )[key] == recorded_replicas(apps, key) by {
        assert(targets(plan, key));
        let i = choose|i: int| 0 <= i < plan.len() && target(#[trigger] plan[i]) == key;
        assert(scaled(cluster, plan)[target(plan[i])] == plan[i].replicas);
    }
    assert forall|key: (WorkloadKind, Seq<char>)| !recorded(apps, key) implies #[trigger] scaled(
        cluster,
        plan,
    )[key] == cluster[key] by {
        assert(!targets(plan, key));
    }
}

/// A shutdown followed by a restart leaves the cluster as it was: where the
/// record holds what each recorded workload runs with, every workload is
/// back at its count afterwards.
pub proof fn lemma_shutdown_then_restart(
    apps: RestartableApps,
    cluster: Map<(WorkloadKind, Seq<char>), i32>,
)
    requires
        apps.wf(),
        forall|key: (WorkloadKind, Seq<char>)|
            recorded(apps, key) ==> cluster.dom().contains(key) && cluster[key]
                == recorded_replicas(apps, key),
    ensures
        scaled(scaled(cluster, shutdown_plan(apps)), start_plan(apps)) == cluster,
{
    let stopped = scaled(cluster, shutdown_plan(apps));
    let restarted = scaled(stopped, start_plan(apps));
    lemma_shutdown_stops_recorded(apps, cluster);
    lemma_restart_restores_recorded(apps, stopped);
    lemma_plan_targets(apps, true);
    lemma_scaled(cluster, shutdown_plan(apps));
    assert forall|key: (WorkloadKind, Seq<char>)| restarted.dom().contains(key)
        <==> cluster.dom().contains(key) by {
        assert(stopped.dom().contains(key) <==> cluster.dom().contains(key) || targets(
            shutdown_plan(apps),
            key,
        ));
    }
    assert forall|key: (WorkloadKind, Seq<char>)| cluster.dom().contains(key) implies restarted[key]
        == cluster[key] by {
        if !recorded(apps, key) {
            assert(restarted[key] == stopped[key]);
            assert(stopped[key] == cluster[key]);
        }
    }
    assert(restarted =~= cluster);
}

} // verus!
