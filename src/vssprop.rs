//! The snapshot property record: its native form, as the service fills it,
//! and the decoded value that callers see.
use vstd::prelude::*;
use crate::guid::Guid;
use crate::utils::{
    decode_ticks, decoded_time, i64_to_date, opt_view, ticks_in_range, timestamp_of_ticks, u16_to_string,
    until_nul, utf16_lossy, Timestamp,
};

verus! {

/// A snapshot property record as the service reports it. Each text field is
/// `None` where the service's pointer is null, and otherwise holds the UTF-16
/// units it points to (a NUL, if present, ends the text).
pub struct NativeSnapshotProp {
    pub snapshot_id: Guid,
    pub snapshot_set_id: Guid,
    pub snapshots_count: i32,
    pub snapshot_device_object: Option<Vec<u16>>,
    pub original_volume_name: Option<Vec<u16>>,
    pub originating_machine: Option<Vec<u16>>,
    pub service_machine: Option<Vec<u16>>,
    pub exposed_name: Option<Vec<u16>>,
    pub exposed_path: Option<Vec<u16>>,
    pub provider_id: Guid,
    pub snapshot_attributes: i32,
    pub creation_timestamp: i64,
    pub status: i32,
}

/// A decoded snapshot record: a read-only picture of one snapshot at the time
/// of the query.
#[derive(Clone, Debug)]
pub struct VSSProp {
    pub snapshot_id: Guid,
    pub shadow_copy_set_id: Guid,
    pub snapshot_count: i32,
    pub origin_vol_name: String,
    pub create_time: Timestamp,
    pub device_name: String,
    pub origin_machine: String,
    pub origin_service: String,
    pub snapshot_attrs: i32,
    pub exposed_name: Option<String>,
    pub exposed_path: Option<String>,
    pub provider_id: Guid,
    pub state: i32,
}

/// The view of a native text field: `None` for a null pointer.
pub open spec fn units_of(field: Option<Vec<u16>>) -> Option<Seq<u16>> {
    match field {
        Some(v) => Some(v@),
        None => None,
    }
}

/// Decoded text of a field that must be present: a null pointer gives "".
pub open spec fn required_text(field: Option<Seq<u16>>) -> Seq<char> {
    match field {
        Some(u) => utf16_lossy(until_nul(u)),
        None => Seq::empty(),
    }
}

/// Decoded text of an optional field: a null pointer gives `None`.
pub open spec fn optional_text(field: Option<Seq<u16>>) -> Option<Seq<char>> {
    match field {
        Some(u) => Some(utf16_lossy(until_nul(u))),
        None => None,
    }
}

/// Every field of `r` but the creation time is decoded from `p`.
pub open spec fn decodes_fields(p: NativeSnapshotProp, r: VSSProp) -> bool {
    &&& r.snapshot_id == p.snapshot_id
    &&& r.shadow_copy_set_id == p.snapshot_set_id
    &&& r.snapshot_count == p.snapshots_count
    &&& r.origin_vol_name@ == required_text(units_of(p.original_volume_name))
    &&& r.device_name@ == required_text(units_of(p.snapshot_device_object))
    &&& r.origin_machine@ == required_text(units_of(p.originating_machine))
    &&& r.origin_service@ == required_text(units_of(p.service_machine))
    &&& opt_view(r.exposed_name) == optional_text(units_of(p.exposed_name))
    &&& opt_view(r.exposed_path) == optional_text(units_of(p.exposed_path))
    &&& r.provider_id == p.provider_id
    &&& r.snapshot_attrs == p.snapshot_attributes
    &&& r.state == p.status
}

/// `r` is the decoding of `p`, with `now` standing in for a creation time
/// before 1970.
pub open spec fn decodes_at(p: NativeSnapshotProp, now: Timestamp, r: VSSProp) -> bool {
    decodes_fields(p, r) && r.create_time == decoded_time(p.creation_timestamp, now)
}

/// `r` is the decoding of `p`, whatever time stood in for a creation time
/// before 1970.
pub open spec fn decodes(p: NativeSnapshotProp, r: VSSProp) -> bool {
    &&& decodes_fields(p, r)
    &&& r.create_time.wf()
    &&& ticks_in_range(p.creation_timestamp) ==> r.create_time == timestamp_of_ticks(
        p.creation_timestamp,
    )
}


/// Decoding is a function of the record: two decodings of one record agree
/// on every field, and on the creation time too whenever the record's own
/// lies at or after 1970 (only the stand-in for an earlier one may differ).
pub proof fn lemma_decode_deterministic(
    p: NativeSnapshotProp,
    now1: Timestamp,
    now2: Timestamp,
    r1: VSSProp,
    r2: VSSProp,
)
    requires
        decodes_at(p, now1, r1),
        decodes_at(p, now2, r2),
    ensures
        r1.snapshot_id == r2.snapshot_id,
        r1.shadow_copy_set_id == r2.shadow_copy_set_id,
        r1.snapshot_count == r2.snapshot_count,
        r1.origin_vol_name@ == r2.origin_vol_name@,
        r1.device_name@ == r2.device_name@,
        r1.origin_machine@ == r2.origin_machine@,
        r1.origin_service@ == r2.origin_service@,
        opt_view(r1.exposed_name) == opt_view(r2.exposed_name),
        opt_view(r1.exposed_path) == opt_view(r2.exposed_path),
        r1.provider_id == r2.provider_id,
        r1.snapshot_attrs == r2.snapshot_attrs,
        r1.state == r2.state,
        ticks_in_range(p.creation_timestamp) ==> r1.create_time == r2.create_time,
        now1 == now2 ==> r1.create_time == r2.create_time,
{
}

/// A null pointer decodes to nothing: an optional text field to `None`, a
/// required one to the empty string.
pub proof fn lemma_null_text(p: NativeSnapshotProp, r: VSSProp)
    requires
        decodes(p, r),
    ensures
        p.exposed_name is None ==> r.exposed_name is None,
        p.exposed_path is None ==> r.exposed_path is None,
        p.exposed_name is Some ==> r.exposed_name is Some,
        p.exposed_path is Some ==> r.exposed_path is Some,
        p.original_volume_name is None ==> r.origin_vol_name@.len() == 0,
        p.snapshot_device_object is None ==> r.device_name@.len() == 0,
        p.originating_machine is None ==> r.origin_machine@.len() == 0,
        p.service_machine is None ==> r.origin_service@.len() == 0,
{
}

fn required_string(field: &Option<Vec<u16>>) -> (r: String)
    ensures
        r@ == required_text(units_of(*field)),
{
    match field {
        Some(units) => u16_to_string(units.as_slice()),
        None => String::new(),
    }
}

fn optional_string(field: &Option<Vec<u16>>) -> (r: Option<String>)
    ensures
        opt_view(r) == optional_text(units_of(*field)),
{
    match field {
        Some(units) => Some(u16_to_string(units.as_slice())),
        None => None,
    }
}

impl VSSProp {
    fn decode_with_time(prop: &NativeSnapshotProp, create_time: Timestamp) -> (r: VSSProp)
        ensures
            decodes_fields(*prop, r),
            r.create_time == create_time,
    {
        VSSProp {
            snapshot_id: prop.snapshot_id,
            shadow_copy_set_id: prop.snapshot_set_id,
            snapshot_count: prop.snapshots_count,
            origin_vol_name: required_string(&prop.original_volume_name),
            create_time,
            device_name: required_string(&prop.snapshot_device_object),
            origin_machine: required_string(&prop.originating_machine),
            origin_service: required_string(&prop.service_machine),
            snapshot_attrs: prop.snapshot_attributes,
            exposed_name: optional_string(&prop.exposed_name),
            exposed_path: optional_string(&prop.exposed_path),
            provider_id: prop.provider_id,
            state: prop.status,
        }
    }

    /// Decodes a native record, taking `now` as the creation time where the
    /// record's own lies before 1970.
    pub fn from_props_at(prop: &NativeSnapshotProp, now: Timestamp) -> (r: VSSProp)
        requires
            now.wf(),
        ensures
            decodes_at(*prop, now, r),
            r.create_time.wf(),
    {
        let t = decode_ticks(prop.creation_timestamp, now);
        VSSProp::decode_with_time(prop, t)
    }

    /// Decodes a native record; a creation time before 1970 is replaced by the
    /// current time.
    pub fn from_props(prop: &NativeSnapshotProp) -> (r: VSSProp)
        ensures
            decodes(*prop, r),
    {
        let t = i64_to_date(prop.creation_timestamp);
        VSSProp::decode_with_time(prop, t)
    }
}

} // verus!
