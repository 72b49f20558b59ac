use vshadow_rs::error::{check_status, S_FALSE, VSS_E_BAD_STATE, VSS_E_OBJECT_NOT_FOUND};
use vshadow_rs::utils::INTERVALS_TO_UNIX_EPOCH;
use vshadow_rs::vssclient::{VSS_BT_FULL, VSS_CTX_BACKUP};
use vshadow_rs::{
    DeleteStep, Guid, NativeSnapshotProp, Operation, ServiceError, SetupCall, Stage, Timestamp,
    VSSProp, VssClient,
};

const FAIL: i32 = -2147467259; // a generic failure status

fn utf16(s: &str) -> Vec<u16> {
    s.encode_utf16().collect()
}

fn record(id: u128, set: u128, volume: &str, ticks: i64) -> NativeSnapshotProp {
    NativeSnapshotProp {
        snapshot_id: Guid::from_u128(id),
        snapshot_set_id: Guid::from_u128(set),
        snapshots_count: 1,
        snapshot_device_object: Some(utf16("dev")),
        original_volume_name: Some(utf16(volume)),
        originating_machine: None,
        service_machine: None,
        exposed_name: None,
        exposed_path: None,
        provider_id: Guid::zeroed(),
        snapshot_attributes: 0,
        creation_timestamp: ticks,
        status: 12,
    }
}

fn prop(id: u128, volume: &str, secs: i64) -> VSSProp {
    VSSProp::from_props_at(
        &record(id, 10, volume, INTERVALS_TO_UNIX_EPOCH + secs * 10_000_000),
        Timestamp { secs: 0, nanos: 0 },
    )
}

fn initialized() -> VssClient {
    let mut c = VssClient::new();
    c.initialize(-1, false, 0).unwrap();
    c
}

#[test]
fn initialize_plan_for_backup_and_restore() {
    let full = SetupCall::SetBackupState {
        select_components: true,
        backup_bootable_system_state: true,
        backup_type: VSS_BT_FULL,
        partial_file_support: false,
    };
    assert_eq!(VssClient::initialize_plan(VSS_CTX_BACKUP, false), vec![SetupCall::InitializeForBackup, full]);
    assert_eq!(
        VssClient::initialize_plan(-1, false),
        vec![SetupCall::InitializeForBackup, SetupCall::SetContext(-1), full]
    );
    assert_eq!(VssClient::initialize_plan(-1, true), vec![SetupCall::InitializeForRestore, full]);
}

#[test]
fn initialize_twice_is_refused() {
    let mut c = VssClient::new();
    assert_eq!(c.initialize(-1, true, 0), Ok(()));
    assert_eq!(c.stage(), Stage::Initialized);
    assert_eq!(c.initialize(0, false, 0), Err(ServiceError::AlreadyInitialized));
    assert_eq!(c.context(), -1);
    assert!(c.during_restore());
    assert_eq!(c.check_ordering(Operation::Initialize), Err(ServiceError::AlreadyInitialized));
}

#[test]
fn failed_initialize_aborts() {
    let mut c = VssClient::new();
    assert_eq!(
        c.initialize(0, false, FAIL),
        Err(ServiceError::ServiceCallFailed { code: FAIL, op: Operation::Initialize, object: Guid::zeroed() })
    );
    assert_eq!(c.stage(), Stage::Aborted);
    assert_eq!(c.initialize(0, false, 0), Err(ServiceError::AlreadyInitialized));
}

#[test]
fn full_handshake() {
    let mut c = initialized();
    assert_eq!(c.gather_writer_metadata(0, 0x4230A), Ok(()));
    assert_eq!(c.start_snapshot_set(0, Guid::from_u128(10)), Ok(Guid::from_u128(10)));
    assert_eq!(c.latest_snapshot_set_id(), Some(Guid::from_u128(10)));
    assert_eq!(c.add_to_snapshot_set(0, Guid::from_u128(1)), Ok(Guid::from_u128(1)));
    assert_eq!(c.add_to_snapshot_set(0, Guid::from_u128(2)), Ok(Guid::from_u128(2)));
    assert_eq!(c.snapshot_ids(), vec![Guid::from_u128(1), Guid::from_u128(2)]);
    assert_eq!(c.set_backup_state(0), Ok(()));
    assert_eq!(c.prepare_for_backup(0, 0), Ok(()));
    assert_eq!(c.stage(), Stage::Prepared);
    assert_eq!(c.do_snapshot_set(0, 0), Ok(()));
    assert_eq!(c.stage(), Stage::Committed);
}

#[test]
fn add_before_start_is_out_of_order() {
    let mut c = initialized();
    let e = Err(ServiceError::InvalidOrdering { op: Operation::AddToSnapshotSet });
    assert_eq!(c.add_to_snapshot_set(0, Guid::from_u128(1)), e);
    assert_eq!(c.stage(), Stage::Initialized);
    c.gather_writer_metadata(0, 0).unwrap();
    assert_eq!(c.add_to_snapshot_set(0, Guid::from_u128(1)), e);
    assert!(c.snapshot_ids().is_empty());
}

#[test]
fn commit_before_prepare_is_out_of_order() {
    let mut c = initialized();
    c.gather_writer_metadata(0, 0).unwrap();
    c.start_snapshot_set(0, Guid::from_u128(10)).unwrap();
    c.add_to_snapshot_set(0, Guid::from_u128(1)).unwrap();
    assert_eq!(
        c.do_snapshot_set(0, 0),
        Err(ServiceError::InvalidOrdering { op: Operation::DoSnapshotSet })
    );
    assert_eq!(c.stage(), Stage::VolumesAdded);
}

#[test]
fn failed_prepare_aborts_and_blocks_commit() {
    let mut c = initialized();
    c.gather_writer_metadata(0, 0).unwrap();
    c.start_snapshot_set(0, Guid::from_u128(10)).unwrap();
    c.add_to_snapshot_set(0, Guid::from_u128(1)).unwrap();
    assert_eq!(
        c.prepare_for_backup(0, FAIL),
        Err(ServiceError::AsyncOperationFailed { code: FAIL, op: Operation::PrepareForBackup })
    );
    assert_eq!(c.stage(), Stage::Aborted);
    assert_eq!(
        c.do_snapshot_set(0, 0),
        Err(ServiceError::InvalidOrdering { op: Operation::DoSnapshotSet })
    );
}

#[test]
fn service_reported_bad_state_is_invalid_ordering() {
    let mut c = initialized();
    assert_eq!(
        c.gather_writer_metadata(VSS_E_BAD_STATE, 0),
        Err(ServiceError::InvalidOrdering { op: Operation::GatherWriterMetadata })
    );
    assert_eq!(c.stage(), Stage::Aborted);
}

#[test]
fn status_mapping() {
    let id = Guid::from_u128(5);
    assert_eq!(check_status(0, Operation::Query, id), Ok(()));
    assert_eq!(check_status(S_FALSE, Operation::Query, id), Ok(()));
    assert_eq!(
        check_status(VSS_E_OBJECT_NOT_FOUND, Operation::GetSnapshotProperties, id),
        Err(ServiceError::NotFound { op: Operation::GetSnapshotProperties, object: id })
    );
    assert_eq!(
        check_status(FAIL, Operation::DeleteSnapshot, id),
        Err(ServiceError::ServiceCallFailed { code: FAIL, op: Operation::DeleteSnapshot, object: id })
    );
    let c = VssClient::new();
    assert_eq!(c.wait_and_check_for_async_operation(1, Operation::DoSnapshotSet), Ok(()));
    assert_eq!(
        c.wait_and_check_for_async_operation(-1, Operation::DoSnapshotSet),
        Err(ServiceError::AsyncOperationFailed { code: -1, op: Operation::DoSnapshotSet })
    );
}

#[test]
fn query_before_initialize_is_out_of_order() {
    let c = VssClient::new();
    assert!(matches!(
        c.query_snapshot_set(Guid::zeroed(), 0, &vec![]),
        Err(ServiceError::InvalidOrdering { op: Operation::Query })
    ));
}

#[test]
fn empty_system_query() {
    let c = initialized();
    let r = c.query_snapshot_set(Guid::zeroed(), S_FALSE, &vec![]).unwrap();
    assert!(r.is_empty());
}

#[test]
fn filtered_query() {
    let c = initialized();
    let t = INTERVALS_TO_UNIX_EPOCH + 10_000_000;
    let records = vec![record(1, 10, "A", t), record(2, 10, "B", t), record(3, 20, "C", t)];
    let one = c.query_snapshot_set(Guid::from_u128(1), 0, &records).unwrap();
    assert_eq!(one.len(), 1);
    assert_eq!(one[0].snapshot_id, Guid::from_u128(1));
    assert_eq!(one[0].origin_vol_name, "A");
    let all = c.query_snapshot_set(Guid::zeroed(), 0, &records).unwrap();
    let ids: Vec<u128> = all.iter().map(|p| p.snapshot_id.to_u128()).collect();
    assert_eq!(ids, vec![1, 2, 3]);
    assert_eq!(all[2].shadow_copy_set_id, Guid::from_u128(20));
    let none = c.query_snapshot_set(Guid::from_u128(9), 0, &records).unwrap();
    assert!(none.is_empty());
}

#[test]
fn failed_query_reports_status() {
    let c = initialized();
    assert!(matches!(
        c.query_snapshot_set(Guid::zeroed(), FAIL, &vec![]),
        Err(ServiceError::ServiceCallFailed { code: FAIL, op: Operation::Query, .. })
    ));
}

#[test]
fn lookup_by_id() {
    let c = initialized();
    let r = record(4, 10, "V", INTERVALS_TO_UNIX_EPOCH);
    let p = c.get_snapshot_properties(Guid::from_u128(4), 0, &r).unwrap();
    assert_eq!(p.snapshot_id, Guid::from_u128(4));
    assert_eq!(p.create_time, Timestamp { secs: 0, nanos: 0 });
    assert!(matches!(
        c.get_snapshot_properties(Guid::from_u128(4), VSS_E_OBJECT_NOT_FOUND, &r),
        Err(ServiceError::NotFound { op: Operation::GetSnapshotProperties, .. })
    ));
}

#[test]
fn delete_reports_non_deleted_id() {
    let c = initialized();
    assert_eq!(c.delete_snapshot(Guid::from_u128(1), 0, Guid::zeroed()), Ok(()));
    assert_eq!(
        c.delete_snapshotset(Guid::from_u128(10), FAIL, Guid::from_u128(2)),
        Err(ServiceError::ServiceCallFailed {
            code: FAIL,
            op: Operation::DeleteSnapshotSet,
            object: Guid::from_u128(2)
        })
    );
}

#[test]
fn delete_oldest_selection() {
    let c = initialized();
    let all = vec![prop(1, "V", 97), prop(2, "W", 10), prop(3, "V", 99), prop(4, "V", 98)];
    assert_eq!(c.delete_oldest_snapshot("V", &all), Some(Guid::from_u128(1)));
    assert_eq!(c.delete_oldest_snapshot("W", &all), Some(Guid::from_u128(2)));
    assert_eq!(c.delete_oldest_snapshot("X", &all), None);
    assert_eq!(c.delete_oldest_snapshot("V", &vec![]), None);
}

#[test]
fn delete_oldest_ties_go_to_first() {
    let c = initialized();
    let all = vec![prop(5, "V", 50), prop(6, "V", 50)];
    assert_eq!(c.delete_oldest_snapshot("V", &all), Some(Guid::from_u128(5)));
}

#[test]
fn delete_all_stops_at_first_error() {
    let c = initialized();
    let all = vec![prop(1, "V", 1), prop(2, "V", 2), prop(3, "V", 3)];
    assert!(matches!(c.delete_all_snapshots(&all, 0, Ok(())), DeleteStep::Delete(g) if g == Guid::from_u128(1)));
    assert!(matches!(c.delete_all_snapshots(&all, 1, Ok(())), DeleteStep::Delete(g) if g == Guid::from_u128(2)));
    let e = ServiceError::ServiceCallFailed { code: FAIL, op: Operation::DeleteSnapshot, object: Guid::from_u128(2) };
    assert!(matches!(c.delete_all_snapshots(&all, 1, Err(e)), DeleteStep::Finished(Err(x)) if x == e));
    assert!(matches!(c.delete_all_snapshots(&all, 3, Ok(())), DeleteStep::Finished(Ok(()))));
    assert!(matches!(c.delete_all_snapshots(&vec![], 0, Ok(())), DeleteStep::Finished(Ok(()))));
}

#[test]
fn set_query_keeps_members() {
    let c = initialized();
    let t = INTERVALS_TO_UNIX_EPOCH;
    let records = vec![record(1, 10, "A", t), record(2, 10, "B", t), record(3, 20, "C", t)];
    let ten = c.query_snapshots_in_set(Guid::from_u128(10), 0, &records).unwrap();
    let ids: Vec<u128> = ten.iter().map(|p| p.snapshot_id.to_u128()).collect();
    assert_eq!(ids, vec![1, 2]);
    let twenty = c.query_snapshots_in_set(Guid::from_u128(20), 0, &records).unwrap();
    assert_eq!(twenty.len(), 1);
    assert_eq!(twenty[0].snapshot_id, Guid::from_u128(3));
    assert!(c.query_snapshots_in_set(Guid::from_u128(20), S_FALSE, &records).unwrap().is_empty());
}

#[test]
fn test_vss() {
    // context: backup | client-accessible writers | app rollback
    let context = 0 | 13 | 9;
    let plan = VssClient::initialize_plan(context, false);
    assert_eq!(plan[0], SetupCall::InitializeForBackup);
    assert_eq!(plan[1], SetupCall::SetContext(context));
    let mut c = VssClient::new();
    c.initialize(context, false, 0).unwrap();
    // Gathering metadata from writers...
    c.gather_writer_metadata(0, 0).unwrap();
    // calling StartSnapshotSet...
    let set = c.start_snapshot_set(0, Guid::from_u128(0xabc)).unwrap();
    let id = c.add_to_snapshot_set(0, Guid::from_u128(0xdef)).unwrap();
    c.set_backup_state(0).unwrap();
    // Preparing for backup...
    c.prepare_for_backup(0, 0).unwrap();
    // Commit all snapshots in this set...
    c.do_snapshot_set(0, 0).unwrap();
    assert_eq!(c.stage(), Stage::Committed);
    assert_eq!(c.latest_snapshot_set_id(), Some(set));
    assert_eq!(c.snapshot_ids(), vec![id]);
}
