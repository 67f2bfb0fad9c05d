use camunda_backup::list::{find_most_recent_usable, newest_completed};
use camunda_backup::restore::{find_newest_backup, restore_set};
use camunda_backup::types::{
    BackupDescriptor, BackupState, OperateDetails, ZeebeDetails,
};

fn zeebe(id: u64, state: BackupState) -> BackupDescriptor<ZeebeDetails> {
    BackupDescriptor { backup_id: id, state, details: vec![] }
}

fn operate(id: u64, state: BackupState, snapshots: &[&str]) -> BackupDescriptor<OperateDetails> {
    BackupDescriptor {
        backup_id: id,
        state,
        details: snapshots
            .iter()
            .map(|name| OperateDetails { snapshot_name: name.to_string() })
            .collect(),
    }
}

#[test]
fn usable_backup_is_newest_completed_in_both() {
    let z = vec![
        zeebe(10, BackupState::Completed),
        zeebe(20, BackupState::Completed),
        zeebe(30, BackupState::Completed),
    ];
    let o = vec![
        operate(20, BackupState::Completed, &[]),
        operate(30, BackupState::Completed, &[]),
        operate(40, BackupState::Completed, &[]),
    ];
    assert_eq!(find_most_recent_usable(&z, &o), Some(30));
}

#[test]
fn usable_backup_does_not_depend_on_order() {
    let z = vec![
        zeebe(30, BackupState::Completed),
        zeebe(10, BackupState::Completed),
        zeebe(20, BackupState::Completed),
    ];
    let o = vec![
        operate(40, BackupState::Completed, &[]),
        operate(20, BackupState::Completed, &[]),
        operate(30, BackupState::Completed, &[]),
    ];
    assert_eq!(find_most_recent_usable(&z, &o), Some(30));
}

#[test]
fn no_usable_backup_without_common_id() {
    let z = vec![zeebe(10, BackupState::Completed)];
    let o = vec![operate(20, BackupState::Completed, &[])];
    assert_eq!(find_most_recent_usable(&z, &o), None);
    assert_eq!(find_most_recent_usable(&vec![], &o), None);
    assert_eq!(find_most_recent_usable(&z, &vec![]), None);
    assert_eq!(find_most_recent_usable(&vec![], &vec![]), None);
}

#[test]
fn usable_backup_must_be_completed_on_both_sides() {
    let z = vec![
        zeebe(10, BackupState::Completed),
        zeebe(20, BackupState::Completed),
        zeebe(30, BackupState::Failed),
        zeebe(40, BackupState::InProgress),
    ];
    let o = vec![
        operate(10, BackupState::Completed, &[]),
        operate(20, BackupState::Incomplete, &[]),
        operate(30, BackupState::Completed, &[]),
        operate(40, BackupState::DoesNotExist, &[]),
    ];
    assert_eq!(find_most_recent_usable(&z, &o), Some(10));
}

#[test]
fn usable_backup_handles_repeated_and_extreme_ids() {
    let z = vec![
        zeebe(u64::MAX, BackupState::Completed),
        zeebe(0, BackupState::Completed),
        zeebe(u64::MAX, BackupState::Failed),
    ];
    let o = vec![
        operate(0, BackupState::Completed, &[]),
        operate(u64::MAX, BackupState::Completed, &[]),
    ];
    assert_eq!(find_most_recent_usable(&z, &o), Some(u64::MAX));
}

#[test]
fn newest_completed_ignores_other_states() {
    let z = vec![
        zeebe(5, BackupState::Completed),
        zeebe(9, BackupState::Failed),
        zeebe(7, BackupState::Completed),
        zeebe(8, BackupState::InProgress),
    ];
    assert_eq!(newest_completed(&z), Some(7));
    assert_eq!(find_newest_backup(&z), Some(7));
    assert_eq!(find_newest_backup(&vec![zeebe(1, BackupState::Incomplete)]), None);
    assert_eq!(find_newest_backup(&vec![]), None);
}

#[test]
fn restore_set_starts_with_the_records_snapshot() {
    let record = operate(1700000000, BackupState::Completed, &["snap-a", "snap-b"]);
    let backup = restore_set(1700000000, &record);
    assert_eq!(backup.id, 1700000000);
    assert_eq!(
        backup.snapshots,
        vec![
            "camunda_zeebe_records_1700000000".to_string(),
            "snap-a".to_string(),
            "snap-b".to_string()
        ]
    );
}

#[test]
fn restore_set_without_reported_snapshots() {
    let record = operate(7, BackupState::Failed, &[]);
    let backup = restore_set(12, &record);
    assert_eq!(backup.id, 12);
    assert_eq!(backup.snapshots, vec!["camunda_zeebe_records_12".to_string()]);
}
