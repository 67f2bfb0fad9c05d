//! The backup inventory: what each component holds and which backup can be
//! restored.

use crate::text::{decimal, opt_view, push_decimal, strings_view};
use crate::types::{BackupDescriptor, BackupState, OperateDetails, ZeebeDetails};
use vstd::prelude::*;

verus! {

/// `id` is the identifier of a record in `backups` that reports `Completed`.
pub open spec fn has_completed<T>(backups: Seq<BackupDescriptor<T>>, id: u64) -> bool {
    exists|i: int|
        0 <= i < backups.len() && (#[trigger] backups[i]).completed() && backups[i].backup_id == id
}

/// `newest` is the greatest identifier that `backups` reports as
/// `Completed`, or `None` where it reports none.
pub open spec fn is_newest_completed<T>(backups: Seq<BackupDescriptor<T>>, newest: Option<u64>) -> bool {
    match newest {
        Some(id) => has_completed(backups, id) && forall|other: u64|
            has_completed(backups, other) ==> other <= id,
        None => forall|other: u64| !has_completed(backups, other),
    }
}

/// The greatest identifier that `backups` reports as `Completed`.
pub fn newest_completed<T>(backups: &Vec<BackupDescriptor<T>>) -> (newest: Option<u64>)
    ensures
        is_newest_completed(backups@, newest),
{
    let mut newest: Option<u64> = None;
    let mut i: usize = 0;
    while i < backups.len()
        invariant
            i <= backups.len(),
            match newest {
                Some(id) => has_completed(backups@, id),
                None => true,
            },
            forall|k: int|
                0 <= k < i && (#[trigger] backups@[k]).completed() ==> newest is Some
                    && backups@[k].backup_id <= newest->0,
        decreases backups.len() - i,
    {
        if backups[i].is_completed() {
            let id: u64 = backups[i].backup_id;
            let newer = match newest {
                Some(current) => current < id,
                None => true,
            };
            if newer {
                newest = Some(id);
            }
        }
        i += 1;
    }
    newest
}

/// A backup is usable when both components report it as `Completed`.
pub open spec fn usable(
    zeebe: Seq<BackupDescriptor<ZeebeDetails>>,
    operate: Seq<BackupDescriptor<OperateDetails>>,
    id: u64,
) -> bool {
    has_completed(zeebe, id) && has_completed(operate, id)
}

/// `best` is the newest usable backup, or `None` where there is none.
pub open spec fn is_most_recent_usable(
    zeebe: Seq<BackupDescriptor<ZeebeDetails>>,
    operate: Seq<BackupDescriptor<OperateDetails>>,
    best: Option<u64>,
) -> bool {
    match best {
        Some(id) => usable(zeebe, operate, id) && forall|other: u64|
            usable(zeebe, operate, other) ==> other <= id,
        None => forall|other: u64| !usable(zeebe, operate, other),
    }
}

/// Whether some record in `backups` reports `id` as `Completed`.
pub fn contains_completed<T>(backups: &Vec<BackupDescriptor<T>>, id: u64) -> (found: bool)
    ensures
        found == has_completed(backups@, id),
{
    let mut i: usize = 0;
    while i < backups.len()
        invariant
            i <= backups.len(),
            forall|k: int| 0 <= k < i ==> !(backups@[k].completed() && backups@[k].backup_id == id),
        decreases backups.len() - i,
    {
        if backups[i].is_completed() && backups[i].backup_id == id {
            return true;
        }
        i += 1;
    }
    false
}

/// The newest backup that both the workflow engine and the query service
/// report as `Completed`.
pub fn find_most_recent_usable(
    zeebe: &Vec<BackupDescriptor<ZeebeDetails>>,
    operate: &Vec<BackupDescriptor<OperateDetails>>,
) -> (best: Option<u64>)
    ensures
        is_most_recent_usable(zeebe@, operate@, best),
{
    let mut best: Option<u64> = None;
    let mut i: usize = 0;
    while i < zeebe.len()
        invariant
            i <= zeebe.len(),
            match best {
                Some(id) => usable(zeebe@, operate@, id),
                None => true,
            },
            forall|k: int|
                0 <= k < i && zeebe@[k].completed() && has_completed(operate@, zeebe@[k].backup_id)
                    ==> best is Some && zeebe@[k].backup_id <= best->0,
        decreases zeebe.len() - i,
    {
        let id: u64 = zeebe[i].backup_id;
        if zeebe[i].is_completed() && contains_completed(operate, id) {
            let newer = match best {
                Some(current) => current < id,
                None => true,
            };
            if newer {
                best = Some(id);
            }
        }
        i += 1;
    }
    best
}

/// How many of the records report `state`.
pub open spec fn count_in_state<T>(backups: Seq<BackupDescriptor<T>>, state: BackupState) -> nat
    decreases backups.len(),
{
    if backups.len() == 0 {
        0
    } else {
        count_in_state(backups.drop_last(), state) + if backups.last().state == state {
            1nat
        } else {
            0nat
        }
    }
}

/// The records at the places `at` are different records of `backups`, all
/// in `state`, and `recent` holds their identifiers.
pub open spec fn picks<T>(
    backups: Seq<BackupDescriptor<T>>,
    state: BackupState,
    at: Seq<int>,
    recent: Seq<u64>,
) -> bool {
    &&& at.len() == recent.len()
    &&& forall|j: int|
        0 <= j < at.len() ==> 0 <= (#[trigger] at[j]) < backups.len() && backups[at[j]].state
            == state && backups[at[j]].backup_id == recent[j]
    &&& forall|j: int, k: int| 0 <= j < k < at.len() ==> (#[trigger] at[j]) != (#[trigger] at[k])
}

/// `recent` holds the identifiers of the newest records in `state`, up to
/// three of them, newest first: no record that is left out is newer than
/// one that is in, and a record is left out only where three are in.
pub open spec fn is_most_recent<T>(
    backups: Seq<BackupDescriptor<T>>,
    state: BackupState,
    recent: Seq<u64>,
) -> bool {
    exists|at: Seq<int>|
        {
            &&& #[trigger] picks(backups, state, at, recent)
            &&& recent.len() <= 3
            &&& forall|j: int, k: int|
                0 <= j < k < recent.len() ==> (#[trigger] recent[j]) >= (#[trigger] recent[k])
            &&& forall|i: int, j: int|
                0 <= i < backups.len() && (#[trigger] backups[i]).state == state && !at.contains(i)
                    && 0 <= j < recent.len() ==> backups[i].backup_id <= (#[trigger] recent[j])
            &&& recent.len() < 3 ==> forall|i: int|
                0 <= i < backups.len() && (#[trigger] backups[i]).state == state ==> at.contains(i)
        }
}

/// What the inventory says of the records in one state.
#[derive(Clone, Debug, PartialEq, Eq)]
pub struct StateSummary {
    pub state: BackupState,
    /// How many records are in that state.
    pub count: usize,
    /// The identifiers of the newest of them, up to three, newest first.
    pub most_recent: Vec<u64>,
}

fn is_picked(picked: &Vec<usize>, i: usize) -> (found: bool)
    ensures
        found == exists|j: int| 0 <= j < picked@.len() && (#[trigger] picked@[j]) == i,
{
    let mut j: usize = 0;
    while j < picked.len()
        invariant
            j <= picked.len(),
            forall|k: int| 0 <= k < j ==> (#[trigger] picked@[k]) != i,
        decreases picked.len() - j,
    {
        if picked[j] == i {
            return true;
        }
        j += 1;
    }
    false
}

/// Counts the records in `state` and picks the newest of them.
pub fn summarize<T>(backups: &Vec<BackupDescriptor<T>>, state: BackupState) -> (summary:
    StateSummary)
    ensures
        summary.state == state,
        summary.count == count_in_state(backups@, state),
        is_most_recent(backups@, state, summary.most_recent@),
{
    let mut count: usize = 0;
    let mut i: usize = 0;
    assert(backups@.take(0) =~= Seq::<BackupDescriptor<T>>::empty());
    while i < backups.len()
        invariant
            i <= backups.len(),
            count <= i,
            count == count_in_state(backups@.take(i as int), state),
        decreases backups.len() - i,
    {
        assert(backups@.take(i as int + 1).drop_last() =~= backups@.take(i as int));
        assert(backups@.take(i as int + 1).last() == backups@[i as int]);
        if backups[i].state == state {
            count += 1;
        }
        i += 1;
    }
    assert(backups@.take(i as int) =~= backups@);

    let mut picked: Vec<usize> = Vec::new();
    let mut recent: Vec<u64> = Vec::new();
    let ghost mut at: Seq<int> = Seq::empty();
    let mut all_in: bool = false;
    let mut round: usize = 0;
    while round < 3 && !all_in
        invariant
            round <= 3,
            picked@.len() == recent@.len(),
            at.len() == picked@.len(),
            forall|j: int| 0 <= j < at.len() ==> (#[trigger] picked@[j]) == at[j],
            !all_in ==> recent@.len() == round,
            all_in ==> recent@.len() < 3,
            picks(backups@, state, at, recent@),
            forall|j: int, k: int|
                0 <= j < k < recent@.len() ==> (#[trigger] recent@[j]) >= (#[trigger] recent@[k]),
            forall|i: int, j: int|
                0 <= i < backups@.len() && (#[trigger] backups@[i]).state == state && !at.contains(i)
                    && 0 <= j < recent@.len() ==> backups@[i].backup_id <= (#[trigger] recent@[j]),
            all_in ==> forall|i: int|
                0 <= i < backups@.len() && (#[trigger] backups@[i]).state == state ==> at.contains(
                    i,
                ),
        decreases 3 - round + if all_in { 0int } else { 1int },
    {
        let mut best: Option<usize> = None;
        let mut i: usize = 0;
        while i < backups.len()
            invariant
                i <= backups.len(),
                at.len() == picked@.len(),
                forall|j: int| 0 <= j < at.len() ==> (#[trigger] picked@[j]) == at[j],
                match best {
                    Some(b) => b < i && backups@[b as int].state == state && !at.contains(b as int),
                    None => true,
                },
                forall|k: int|
                    0 <= k < i && (#[trigger] backups@[k]).state == state && !at.contains(k)
                        ==> best is Some && backups@[k].backup_id <= backups@[best->0 as int].backup_id,
            decreases backups.len() - i,
        {
            let taken = is_picked(&picked, i);
            proof {
                if taken {
                    let j = choose|j: int| 0 <= j < picked@.len() && (#[trigger] picked@[j]) == i;
                    assert(at[j] == i as int);
                } else if at.contains(i as int) {
                    let j = choose|j: int| 0 <= j < at.len() && at[j] == i as int;
                    assert(picked@[j] == i);
                }
            }
            if backups[i].state == state && !taken {
                let newer = match best {
                    Some(b) => backups[b].backup_id < backups[i].backup_id,
                    None => true,
                };
                if newer {
                    best = Some(i);
                }
            }
            i += 1;
        }
        match best {
            Some(b) => {
                let ghost old_at = at;
                let ghost old_recent = recent@;
                picked.push(b);
                recent.push(backups[b].backup_id);
                proof {
                    at = at.push(b as int);
                    assert forall|j: int| 0 <= j < at.len() implies 0 <= (#[trigger] at[j])
                        < backups@.len() && backups@[at[j]].state == state
                        && backups@[at[j]].backup_id == recent@[j] by {
                        if j < old_at.len() {
                            assert(at[j] == old_at[j]);
                            assert(recent@[j] == old_recent[j]);
                        }
                    }
                    assert forall|j: int, k: int| 0 <= j < k < at.len() implies (#[trigger] at[j])
                        != (#[trigger] at[k]) by {
                        if k < old_at.len() {
                            assert(old_at[j] != old_at[k]);
                        } else {
                            assert(old_at[j] == at[j]);
                            assert(old_at.contains(old_at[j]));
                        }
                    }
                    assert forall|j: int, k: int| 0 <= j < k < recent@.len() implies (
                    #[trigger] recent@[j]) >= (#[trigger] recent@[k]) by {
                        if k < old_recent.len() {
                            assert(old_recent[j] >= old_recent[k]);
                        } else {
                            assert(backups@[b as int].backup_id <= old_recent[j]);
                        }
                    }
                    assert forall|i: int, j: int|
                        0 <= i < backups@.len() && (#[trigger] backups@[i]).state == state
                            && !at.contains(i) && 0 <= j < recent@.len() implies backups@[i].backup_id
                        <= (#[trigger] recent@[j]) by {
                        if old_at.contains(i) {
                            let w = choose|w: int| 0 <= w < old_at.len() && old_at[w] == i;
                            assert(at[w] == i);
                        }
                        if j < old_recent.len() {
                            assert(backups@[i].backup_id <= old_recent[j]);
                        }
                    }
                }
            },
            None => {
                all_in = true;
            },
        }
        round += 1;
    }
    assert(picks(backups@, state, at, recent@));
    StateSummary { state, count, most_recent: recent }
}

/// The name of a state, as the inventory prints it.
pub open spec fn state_name(state: BackupState) -> Seq<char> {
    match state {
        BackupState::Completed => "Completed"@,
        BackupState::Failed => "Failed"@,
        BackupState::InProgress => "InProgress"@,
        BackupState::Incomplete => "Incomplete"@,
        BackupState::DoesNotExist => "DoesNotExist"@,
    }
}

/// The identifiers in base ten, with a comma and a blank between them.
pub open spec fn joined_ids(ids: Seq<u64>) -> Seq<char>
    decreases ids.len(),
{
    if ids.len() == 0 {
        Seq::empty()
    } else if ids.len() == 1 {
        decimal(ids[0] as nat)
    } else {
        joined_ids(ids.drop_last()) + ", "@ + decimal(ids.last() as nat)
    }
}

/// The line of the inventory for one state: the number of backups in it,
/// the state, and the newest of them.
pub open spec fn summary_text(state: BackupState, count: usize, most_recent: Seq<u64>) -> Seq<char> {
    decimal(count as nat) + " backups "@ + state_name(state) + ": "@ + joined_ids(most_recent)
        + ", ..."@
}

/// Writes the line of the inventory for one state, such as
/// `4 backups Completed: 40, 30, 20, ...`.
pub fn summary_line(summary: &StateSummary) -> (line: String)
    ensures
        line@ == summary_text(summary.state, summary.count, summary.most_recent@),
{
    let mut line = String::new();
    push_decimal(&mut line, summary.count as u64);
    line.append(" backups ");
    match summary.state {
        BackupState::Completed => line.append("Completed"),
        BackupState::Failed => line.append("Failed"),
        BackupState::InProgress => line.append("InProgress"),
        BackupState::Incomplete => line.append("Incomplete"),
        BackupState::DoesNotExist => line.append("DoesNotExist"),
    }
    line.append(": ");
    let ghost head = line@;
    let ghost ids = summary.most_recent@;
    let mut i: usize = 0;
    assert(ids.take(0) =~= Seq::<u64>::empty());
    assert(head + Seq::<char>::empty() =~= head);
    while i < summary.most_recent.len()
        invariant
            i <= summary.most_recent.len(),
            ids == summary.most_recent@,
            line@ == head + joined_ids(ids.take(i as int)),
        decreases summary.most_recent.len() - i,
    {
        let ghost upto = ids.take(i as int + 1);
        if i > 0 {
            line.append(", ");
        }
        push_decimal(&mut line, summary.most_recent[i]);
        proof {
            assert(upto.drop_last() =~= ids.take(i as int));
            assert(upto.last() == ids[i as int]);
            if i == 0 {
                assert(upto[0] == ids[0]);
            }
            assert(line@ =~= head + joined_ids(upto));
        }
        i += 1;
    }
    assert(ids.take(i as int) =~= ids);
    line.append(", ...");
    assert(line@ =~= summary_text(summary.state, summary.count, summary.most_recent@));
    line
}

/// The place of a state in the order of the inventory.
pub open spec fn state_rank(state: BackupState) -> nat {
    match state {
        BackupState::Completed => 0,
        BackupState::Failed => 1,
        BackupState::InProgress => 2,
        BackupState::Incomplete => 3,
        BackupState::DoesNotExist => 4,
    }
}

/// `stats` sums up `backups`: one summary for each state that a record is
/// in, in the order of the states, with the number of records in that state
/// and the newest of them.
pub open spec fn is_stats<T>(backups: Seq<BackupDescriptor<T>>, stats: Seq<StateSummary>) -> bool {
    &&& forall|k: int|
        0 <= k < stats.len() ==> {
            &&& (#[trigger] stats[k]).count > 0
            &&& stats[k].count == count_in_state(backups, stats[k].state)
            &&& is_most_recent(backups, stats[k].state, stats[k].most_recent@)
        }
    &&& forall|j: int, k: int|
        0 <= j < k < stats.len() ==> state_rank((#[trigger] stats[j]).state) < state_rank(
            (#[trigger] stats[k]).state,
        )
    &&& forall|state: BackupState|
        count_in_state(backups, state) > 0 ==> exists|k: int|
            0 <= k < stats.len() && (#[trigger] stats[k]).state == state
}

/// `lines` holds the line of each summary.
pub open spec fn are_summary_lines(stats: Seq<StateSummary>, lines: Seq<String>) -> bool {
    &&& lines.len() == stats.len()
    &&& forall|k: int|
        0 <= k < lines.len() ==> (#[trigger] lines[k])@ == summary_text(
            stats[k].state,
            stats[k].count,
            stats[k].most_recent@,
        )
}

/// `lines` is the inventory of `backups`: the lines of the summaries that
/// sum them up.
pub open spec fn is_inventory<T>(backups: Seq<BackupDescriptor<T>>, lines: Seq<String>) -> bool {
    exists|stats: Seq<StateSummary>|
        is_stats(backups, stats) && #[trigger] are_summary_lines(stats, lines)
}

fn add_summary<T>(stats: &mut Vec<StateSummary>, backups: &Vec<BackupDescriptor<T>>, state: BackupState)
    requires
        forall|k: int|
            0 <= k < old(stats)@.len() ==> state_rank((#[trigger] old(stats)@[k]).state)
                < state_rank(state),
    ensures
        count_in_state(backups@, state) == 0 ==> final(stats)@ == old(stats)@,
        count_in_state(backups@, state) > 0 ==> final(stats)@.len() == old(stats)@.len() + 1
            && final(stats)@.drop_last() == old(stats)@ && final(stats)@.last().state == state
            && final(stats)@.last().count == count_in_state(backups@, state) && is_most_recent(
            backups@,
            state,
            final(stats)@.last().most_recent@,
        ),
{
    let summary = summarize(backups, state);
    if summary.count > 0 {
        stats.push(summary);
        assert(stats@.drop_last() =~= old(stats)@);
    }
}

/// Sums up the records by state.
pub fn backup_stats<T>(backups: &Vec<BackupDescriptor<T>>) -> (stats: Vec<StateSummary>)
    ensures
        is_stats(backups@, stats@),
{
    let mut stats: Vec<StateSummary> = Vec::new();
    add_summary(&mut stats, backups, BackupState::Completed);
    let ghost s1 = stats@;
    add_summary(&mut stats, backups, BackupState::Failed);
    let ghost s2 = stats@;
    add_summary(&mut stats, backups, BackupState::InProgress);
    let ghost s3 = stats@;
    add_summary(&mut stats, backups, BackupState::Incomplete);
    let ghost s4 = stats@;
    add_summary(&mut stats, backups, BackupState::DoesNotExist);
    proof {
        let s5 = stats@;
        lemma_prefix_kept(s1, s2);
        lemma_prefix_kept(s2, s3);
        lemma_prefix_kept(s3, s4);
        lemma_prefix_kept(s4, s5);
        assert forall|state: BackupState| count_in_state(backups@, state) > 0 implies exists|k: int|
            0 <= k < s5.len() && (#[trigger] s5[k]).state == state by {
            match state {
                BackupState::Completed => {
                    assert(s1.last().state == state);
                    assert(s5[s1.len() - 1] == s1[s1.len() - 1]);
                },
                BackupState::Failed => {
                    assert(s2.last().state == state);
                    assert(s5[s2.len() - 1] == s2[s2.len() - 1]);
                },
                BackupState::InProgress => {
                    assert(s3.last().state == state);
                    assert(s5[s3.len() - 1] == s3[s3.len() - 1]);
                },
                BackupState::Incomplete => {
                    assert(s4.last().state == state);
                    assert(s5[s4.len() - 1] == s4[s4.len() - 1]);
                },
                BackupState::DoesNotExist => {
                    assert(s5.last().state == state);
                    assert(s5[s5.len() - 1] == s5.last());
                },
            }
        }
    }
    stats
}

/// A list that grew by at most one summary still holds the old ones at
/// their places.
proof fn lemma_prefix_kept(before: Seq<StateSummary>, after: Seq<StateSummary>)
    requires
        after == before || (after.len() == before.len() + 1 && after.drop_last() == before),
    ensures
        before.len() <= after.len(),
        forall|k: int| 0 <= k < before.len() ==> (#[trigger] after[k]) == before[k],
{
    if after != before {
        assert forall|k: int| 0 <= k < before.len() implies (#[trigger] after[k]) == before[k] by {
            assert(after.drop_last()[k] == after[k]);
        }
    }
}

/// Writes the inventory of `backups`: for each state that a backup is in,
/// a line with the number of backups in that state and the newest of them.
pub fn print_backup_stats<T>(backups: &Vec<BackupDescriptor<T>>) -> (lines: Vec<String>)
    ensures
        is_inventory(backups@, lines@),
{
    let stats = backup_stats(backups);
    let mut lines: Vec<String> = Vec::new();
    let mut i: usize = 0;
    while i < stats.len()
        invariant
            i <= stats.len(),
            lines@.len() == i,
            forall|k: int|
                0 <= k < i ==> (#[trigger] lines@[k])@ == summary_text(
                    stats@[k].state,
                    stats@[k].count,
                    stats@[k].most_recent@,
                ),
        decreases stats.len() - i,
    {
        lines.push(summary_line(&stats[i]));
        i += 1;
    }
    assert(are_summary_lines(stats@, lines@));
    lines
}

/// The date and time, in UTC, that lies `seconds` seconds after the start
/// of 1970, as `chrono` writes it; `None` where `chrono` has no such date.
pub uninterp spec fn utc_date_text(seconds: int) -> Option<Seq<char>>;

/// Makes a date of the timestamp with `chrono::TimeZone::timestamp_opt` on
/// `chrono::Utc` and writes it out through its `Display`. The result is
/// `utc_date_text` of the timestamp: `None` where `timestamp_opt` finds the
/// timestamp out of range.
#[verifier::external_body]
fn utc_date(seconds: i64) -> (text: Option<String>)
    ensures
        text is Some <==> utc_date_text(seconds as int) is Some,
        text is Some ==> text->0@ == utc_date_text(seconds as int)->0,
{
    match chrono::TimeZone::timestamp_opt(&chrono::Utc, seconds, 0) {
        chrono::LocalResult::Single(date) => Some(date.to_string()),
        _ => None,
    }
}

/// Says how long ago the timestamp lies, in words, with
/// `chrono_humanize::HumanTime`. The answer depends on the time of the
/// call, so nothing is stated of it.
#[verifier::external_body]
fn time_since(seconds: i64) -> Option<String> {
    match chrono::TimeZone::timestamp_opt(&chrono::Utc, seconds, 0) {
        chrono::LocalResult::Single(date) => Some(
            chrono_humanize::HumanTime::from(date).to_string(),
        ),
        _ => None,
    }
}

/// What the inventory says of the newest usable backup: its identifier
/// and, where both are known, how long ago and when it was made; or that
/// there is none.
pub open spec fn verdict_text(
    usable: Option<u64>,
    age: Option<Seq<char>>,
    date: Option<Seq<char>>,
) -> Seq<Seq<char>> {
    match usable {
        None => seq!["No usable backups found"@],
        Some(id) => {
            let first = "The most recent usable backup is "@ + decimal(id as nat);
            if age is Some && date is Some {
                seq![first, "This backup was created "@ + age->0 + " at "@ + date->0]
            } else {
                seq![first]
            }
        },
    }
}

/// Writes what the inventory says of the newest usable backup.
pub fn verdict(usable: Option<u64>, age: Option<String>, date: Option<String>) -> (lines: Vec<
    String,
>)
    ensures
        strings_view(lines@) == verdict_text(usable, opt_view(age), opt_view(date)),
{
    let mut lines: Vec<String> = Vec::new();
    match usable {
        None => {
            lines.push(String::from_str("No usable backups found"));
        },
        Some(id) => {
            let mut first = String::from_str("The most recent usable backup is ");
            push_decimal(&mut first, id);
            lines.push(first);
            match (age, date) {
                (Some(age), Some(date)) => {
                    let mut second = String::from_str("This backup was created ");
                    second.append(age.as_str());
                    second.append(" at ");
                    second.append(date.as_str());
                    lines.push(second);
                },
                _ => {},
            }
        },
    }
    assert(strings_view(lines@) =~= verdict_text(usable, opt_view(age), opt_view(date)));
    lines
}

/// The timestamp that a backup's identifier stands for.
pub fn timestamp_of(backup_id: u64) -> (seconds: i64)
    ensures
        seconds == backup_id as i64,
        backup_id <= i64::MAX ==> seconds == backup_id,
{
    #[verifier::truncate]
    (backup_id as i64)
}

/// When the backup was made, as far as its identifier is a timestamp that
/// stands for a date.
pub open spec fn date_of(usable: Option<u64>) -> Option<Seq<char>> {
    match usable {
        Some(id) => utc_date_text(id as i64 as int),
        None => None,
    }
}

/// The backup inventory.
#[derive(Clone, Debug, PartialEq, Eq)]
pub struct Inventory {
    /// The workflow engine's backups, a line for each state.
    pub zeebe: Vec<String>,
    /// The query service's backups, a line for each state.
    pub operate: Vec<String>,
    /// The newest backup that can be restored.
    pub usable: Option<u64>,
    /// What is said of that backup.
    pub verdict: Vec<String>,
}

/// Draws up the inventory: the backups of the workflow engine and of the
/// query service by state, and the newest backup that both report as
/// `Completed`, with the time at which it was made.
pub fn list(
    zeebe_backups: &Vec<BackupDescriptor<ZeebeDetails>>,
    operate_backups: &Vec<BackupDescriptor<OperateDetails>>,
) -> (inventory: Inventory)
    ensures
        is_inventory(zeebe_backups@, inventory.zeebe@),
        is_inventory(operate_backups@, inventory.operate@),
        is_most_recent_usable(zeebe_backups@, operate_backups@, inventory.usable),
        exists|age: Option<Seq<char>>|
            strings_view(inventory.verdict@) == #[trigger] verdict_text(
                inventory.usable,
                age,
                date_of(inventory.usable),
            ),
{
    let zeebe = print_backup_stats(zeebe_backups);
    let operate = print_backup_stats(operate_backups);
    let usable = find_most_recent_usable(zeebe_backups, operate_backups);
    let lines = match usable {
        Some(id) => {
            let seconds = timestamp_of(id);
            let age = time_since(seconds);
            let date = utc_date(seconds);
            let ghost age_text = opt_view(age);
            let lines = verdict(usable, age, date);
            assert(strings_view(lines@) == verdict_text(
                usable,
                age_text,
                date_of(usable),
            ));
            lines
        },
        None => {
            let lines = verdict(None, None, None);
            assert(strings_view(lines@) == verdict_text(usable, None, date_of(usable)));
            lines
        },
    };
    Inventory { zeebe, operate, usable, verdict: lines }
}

} // verus!
