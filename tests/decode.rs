use vshadow_rs::utils::{
    decode_ticks, i64_to_date, u16_to_string, ATTR_NO_AUTO_RELEASE, ATTR_PERSISTENT,
    INTERVALS_TO_UNIX_EPOCH,
};
use vshadow_rs::{get_string_for_snapshot_state, volsnap_attrs_to_str, Guid, NativeSnapshotProp, Timestamp, VSSProp};

fn utf16(s: &str) -> Vec<u16> {
    s.encode_utf16().collect()
}

fn record() -> NativeSnapshotProp {
    NativeSnapshotProp {
        snapshot_id: Guid::from_u128(1),
        snapshot_set_id: Guid::from_u128(10),
        snapshots_count: 2,
        snapshot_device_object: Some(utf16("\\\\?\\GLOBALROOT\\Device\\HarddiskVolumeShadowCopy1")),
        original_volume_name: Some(utf16("\\\\?\\Volume{1}\\")),
        originating_machine: Some(utf16("host")),
        service_machine: Some(utf16("host")),
        exposed_name: None,
        exposed_path: None,
        provider_id: Guid::from_u128(7),
        snapshot_attributes: ATTR_PERSISTENT | ATTR_NO_AUTO_RELEASE,
        creation_timestamp: INTERVALS_TO_UNIX_EPOCH + 15_000_000,
        status: 12,
    }
}

#[test]
fn attributes_zero_mask_reports_auto_release_only() {
    assert_eq!(volsnap_attrs_to_str(0), vec!["Auto_Release".to_string()]);
}

#[test]
fn attributes_in_declared_order() {
    let names = volsnap_attrs_to_str(0x1 | 0x8 | 0x20000 | 0x4000000);
    assert_eq!(names, vec!["Persistent", "No_Auto_Release", "Differential", "File_Share"]);
    let all = volsnap_attrs_to_str(-1);
    assert_eq!(all.len(), 19);
    assert!(all.contains(&"No_Auto_Release".to_string()));
    assert!(!all.contains(&"Auto_Release".to_string()));
}

#[test]
fn attributes_exactly_one_release_name() {
    for mask in [0, 1, 8, 9, 0x7ff_ffff, -1, 0x10000] {
        let names = volsnap_attrs_to_str(mask);
        let n = names.iter().filter(|n| *n == "Auto_Release" || *n == "No_Auto_Release").count();
        assert_eq!(n, 1);
        assert_eq!(names.contains(&"Plex".to_string()), mask & 0x40000 != 0);
    }
}

#[test]
fn state_names() {
    assert_eq!(get_string_for_snapshot_state(7), "VSS_SS_COMMITTED");
    assert_eq!(get_string_for_snapshot_state(12), "VSS_SS_CREATED");
    assert_eq!(get_string_for_snapshot_state(16), "VSS_SS_COUNT");
    assert_eq!(get_string_for_snapshot_state(0), "VSS_SS_UNKNOWN");
    assert_eq!(get_string_for_snapshot_state(99), "VSS_SS_UNKNOWN");
}

#[test]
fn ticks_at_epoch_offset_are_unix_epoch() {
    let now = Timestamp { secs: 1_700_000_000, nanos: 5 };
    assert_eq!(decode_ticks(INTERVALS_TO_UNIX_EPOCH, now), Timestamp { secs: 0, nanos: 0 });
    assert_eq!(i64_to_date(INTERVALS_TO_UNIX_EPOCH), Timestamp { secs: 0, nanos: 0 });
}

#[test]
fn ticks_below_offset_fall_back_to_now() {
    let now = Timestamp { secs: 1_700_000_000, nanos: 5 };
    assert_eq!(decode_ticks(INTERVALS_TO_UNIX_EPOCH - 1, now), now);
    assert_eq!(decode_ticks(-5, now), now);
    let t = i64_to_date(INTERVALS_TO_UNIX_EPOCH - 1);
    assert!(t.secs > 1_600_000_000);
}

#[test]
fn ticks_decode_exactly() {
    let now = Timestamp { secs: 0, nanos: 0 };
    // 2001-09-09T01:46:40.1234567Z
    let raw = INTERVALS_TO_UNIX_EPOCH + 1_000_000_000 * 10_000_000 + 1_234_567;
    assert_eq!(decode_ticks(raw, now), Timestamp { secs: 1_000_000_000, nanos: 123_456_700 });
    assert_eq!(decode_ticks(i64::MAX, now).secs, (i64::MAX - INTERVALS_TO_UNIX_EPOCH) / 10_000_000);
}

#[test]
fn timestamp_order() {
    let a = Timestamp { secs: 5, nanos: 10 };
    let b = Timestamp { secs: 5, nanos: 11 };
    let c = Timestamp { secs: 6, nanos: 0 };
    assert!(a.is_before(&b) && b.is_before(&c) && !c.is_before(&a) && !a.is_before(&a));
}

#[test]
fn utf16_text_stops_at_nul() {
    let mut units = utf16("C:\\");
    units.push(0);
    units.extend(utf16("junk"));
    assert_eq!(u16_to_string(&units), "C:\\");
    assert_eq!(u16_to_string(&utf16("host")), "host");
    assert_eq!(u16_to_string(&[]), "");
    assert_eq!(u16_to_string(&[0xD800]), "\u{FFFD}");
}

#[test]
fn decode_record_fields() {
    let now = Timestamp { secs: 42, nanos: 0 };
    let p: VSSProp = VSSProp::from_props_at(&record(), now);
    assert_eq!(p.snapshot_id, Guid::from_u128(1));
    assert_eq!(p.shadow_copy_set_id, Guid::from_u128(10));
    assert_eq!(p.snapshot_count, 2);
    assert_eq!(p.origin_vol_name, "\\\\?\\Volume{1}\\");
    assert_eq!(p.device_name, "\\\\?\\GLOBALROOT\\Device\\HarddiskVolumeShadowCopy1");
    assert_eq!(p.origin_machine, "host");
    assert_eq!(p.origin_service, "host");
    assert_eq!(p.provider_id, Guid::from_u128(7));
    assert_eq!(p.snapshot_attrs, ATTR_PERSISTENT | ATTR_NO_AUTO_RELEASE);
    assert_eq!(p.state, 12);
    assert_eq!(p.create_time, Timestamp { secs: 1, nanos: 500_000_000 });
}

#[test]
fn decode_null_text() {
    let mut r = record();
    r.original_volume_name = None;
    r.exposed_name = Some(utf16("E:"));
    let p = VSSProp::from_props(&r);
    assert_eq!(p.origin_vol_name, "");
    assert_eq!(p.exposed_name.as_deref(), Some("E:"));
    assert_eq!(p.exposed_path, None);
}

#[test]
fn decode_is_deterministic() {
    let now = Timestamp { secs: 9, nanos: 9 };
    let a = VSSProp::from_props_at(&record(), now);
    let b = VSSProp::from_props(&record());
    assert_eq!(a.snapshot_id, b.snapshot_id);
    assert_eq!(a.origin_vol_name, b.origin_vol_name);
    assert_eq!(a.create_time, b.create_time);
    let mut early = record();
    early.creation_timestamp = 0;
    assert_eq!(VSSProp::from_props_at(&early, now).create_time, now);
}
