//! Decoding the external tool's JSON report output into typed records.
//!
//! The captured output of one enumeration command is checked for
//! success, decoded into a plain JSON tree, navigated to the nested row
//! array, and each row converted field by field.  Every step after the
//! decode is verified on plain values, so the decoders' contracts fix
//! the whole outcome: which error each malformed input yields, and the
//! exact typed rows, in order, for a well-formed report.

use vstd::prelude::*;

use crate::error::LvmError;
use crate::json::{spec_json_tree, json_tree_of, JsonTree};
use crate::parse::{parse_i32, parse_size, parse_u32, spec_parse_i32, spec_parse_size,
    spec_parse_u32};
use crate::volume::{str_eq, LogicalVolumeReport, ToolOutput, VolumeGroupReport};

verus! {

/// The first member of an object's member list with the given key.
pub open spec fn spec_members_get(ms: Seq<(String, JsonTree)>, key: Seq<char>) -> Option<JsonTree>
    decreases ms.len(),
{
    if ms.len() == 0 {
        None
    } else if ms[0].0@ == key {
        Some(ms[0].1)
    } else {
        spec_members_get(ms.skip(1), key)
    }
}

/// The named member of an object tree; `None` for other trees.
pub open spec fn spec_tree_get(t: JsonTree, key: Seq<char>) -> Option<JsonTree> {
    match t {
        JsonTree::Obj(ms) => spec_members_get(ms@, key),
        _ => None,
    }
}

/// The element of an array tree; `None` for other trees or an index
/// out of range.
pub open spec fn spec_tree_index(t: JsonTree, i: int) -> Option<JsonTree> {
    match t {
        JsonTree::Arr(es) => if 0 <= i < es@.len() {
            Some(es@[i])
        } else {
            None
        },
        _ => None,
    }
}

/// The content of a string tree; `None` for other trees.
pub open spec fn spec_tree_str(t: JsonTree) -> Option<Seq<char>> {
    match t {
        JsonTree::Str(s) => Some(s@),
        _ => None,
    }
}

/// The string content of the named member of a row object.
pub open spec fn spec_row_field(row: JsonTree, key: Seq<char>) -> Option<Seq<char>> {
    match spec_tree_get(row, key) {
        Some(f) => spec_tree_str(f),
        None => None,
    }
}

fn tree_get<'a>(t: &'a JsonTree, key: &str) -> (r: Option<&'a JsonTree>)
    ensures
        match r {
            Some(f) => spec_tree_get(*t, key@) == Some(*f),
            None => spec_tree_get(*t, key@) is None,
        },
{
    match t {
        JsonTree::Obj(ms) => {
            let ghost all = ms@;
            let mut i: usize = 0;
            let mut found: bool = false;
            proof {
                assert(all.skip(0) =~= all);
            }
            while !found && i < ms.len()
                invariant
                    ms@ == all,
                    i <= all.len(),
                    found ==> i < all.len() && spec_members_get(all, key@) == Some(
                        all[i as int].1,
                    ),
                    !found ==> spec_members_get(all, key@) == spec_members_get(
                        all.skip(i as int),
                        key@,
                    ),
                decreases (if found {
                    0int
                } else {
                    1int
                }), all.len() - i,
            {
                proof {
                    assert(all.skip(i as int)[0] == all[i as int]);
                }
                if str_eq(ms[i].0.as_str(), key) {
                    found = true;
                } else {
                    proof {
                        assert(all.skip(i as int).skip(1) =~= all.skip(i + 1));
                    }
                    i = i + 1;
                }
            }
            if found {
                Some(&ms[i].1)
            } else {
                proof {
                    assert(all.skip(all.len() as int) =~= Seq::<(String, JsonTree)>::empty());
                }
                None
            }
        },
        _ => None,
    }
}

fn tree_index<'a>(t: &'a JsonTree, i: usize) -> (r: Option<&'a JsonTree>)
    ensures
        match r {
            Some(f) => spec_tree_index(*t, i as int) == Some(*f),
            None => spec_tree_index(*t, i as int) is None,
        },
{
    match t {
        JsonTree::Arr(es) => {
            if i < es.len() {
                Some(&es[i])
            } else {
                None
            }
        },
        _ => None,
    }
}

fn tree_str(t: &JsonTree) -> (r: Option<String>)
    ensures
        match r {
            Some(s) => spec_tree_str(*t) == Some(s@),
            None => spec_tree_str(*t) is None,
        },
{
    match t {
        JsonTree::Str(s) => Some(s.clone()),
        _ => None,
    }
}

/// Extracts a named member that must be a string.
fn get_string_field(row: &JsonTree, field: &str) -> (r: Result<String, LvmError>)
    ensures
        match r {
            Ok(s) => spec_row_field(*row, field@) == Some(s@),
            Err(e) => spec_row_field(*row, field@) is None && (e matches LvmError::BadShape {
                context,
            } && context@ == field@),
        },
{
    match tree_get(row, field) {
        Some(f) => match tree_str(f) {
            Some(s) => Ok(s),
            None => Err(LvmError::BadShape { context: String::from_str(field) }),
        },
        None => Err(LvmError::BadShape { context: String::from_str(field) }),
    }
}

/// The row array of a report document: the member named by `kind` of
/// the first element of the `report` array.
pub open spec fn spec_report_rows(t: JsonTree, kind: Seq<char>) -> Option<Seq<JsonTree>> {
    match spec_tree_get(t, "report"@) {
        Some(rep) => match spec_tree_index(rep, 0) {
            Some(first) => match spec_tree_get(first, kind) {
                Some(arr) => match arr {
                    JsonTree::Arr(es) => Some(es@),
                    _ => None,
                },
                None => None,
            },
            None => None,
        },
        None => None,
    }
}

/// The shape error for a report document without the expected nested
/// row array.
fn bad_report_shape(kind: &str) -> (e: LvmError)
    ensures
        e matches LvmError::BadShape { context } && context@ == "report[0]."@ + kind@,
{
    let mut context = String::from_str("report[0].");
    context.append(kind);
    LvmError::BadShape { context }
}

/// Navigates a decoded report document to its row array.
fn rows_of_report<'a>(t: &'a JsonTree, kind: &str) -> (r: Result<&'a Vec<JsonTree>, LvmError>)
    ensures
        match r {
            Ok(rows) => spec_report_rows(*t, kind@) == Some(rows@),
            Err(e) => spec_report_rows(*t, kind@) is None && (e matches LvmError::BadShape {
                context,
            } && context@ == "report[0]."@ + kind@),
        },
{
    let report = match tree_get(t, "report") {
        Some(v) => v,
        None => { return Err(bad_report_shape(kind)); },
    };
    let first = match tree_index(report, 0) {
        Some(v) => v,
        None => { return Err(bad_report_shape(kind)); },
    };
    let arr = match tree_get(first, kind) {
        Some(v) => v,
        None => { return Err(bad_report_shape(kind)); },
    };
    match arr {
        JsonTree::Arr(es) => Ok(es),
        _ => Err(bad_report_shape(kind)),
    }
}

/// The textual fields of one logical-volume report row, exactly as the
/// tool rendered them.
pub struct RawLvRow {
    pub lv_name: String,
    pub vg_name: String,
    pub seg_count: String,
    pub lv_attr: String,
    pub lv_size: String,
    pub lv_major: String,
    pub lv_minor: String,
    pub lv_kernel_major: String,
    pub lv_kernel_minor: String,
    pub pool_lv: String,
    pub origin: String,
    pub data_percent: String,
    pub metadata_percent: String,
    pub move_pv: String,
    pub copy_percent: String,
    pub mirror_log: String,
    pub convert_lv: String,
    pub lv_uuid: String,
    pub lv_profile: String,
}

/// The textual fields of one volume-group report row.
pub struct RawVgRow {
    pub vg_name: String,
    pub vg_attr: String,
    pub vg_extent_size: String,
    pub pv_count: String,
    pub lv_count: String,
    pub snap_count: String,
    pub vg_size: String,
    pub vg_free: String,
    pub vg_uuid: String,
    pub vg_profile: String,
}

/// Whether every numeric field of a logical-volume row converts.
pub open spec fn spec_lv_row_ok(raw: RawLvRow) -> bool {
    &&& spec_parse_i32(raw.seg_count@) is Some
    &&& spec_parse_size(raw.lv_size@) is Some
    &&& spec_parse_i32(raw.lv_major@) is Some
    &&& spec_parse_i32(raw.lv_minor@) is Some
    &&& spec_parse_i32(raw.lv_kernel_major@) is Some
    &&& spec_parse_i32(raw.lv_kernel_minor@) is Some
}

/// The first numeric field of a logical-volume row, in field order,
/// whose text does not convert, with that text.
pub open spec fn spec_lv_row_bad_field(raw: RawLvRow) -> (Seq<char>, Seq<char>) {
    if spec_parse_i32(raw.seg_count@) is None {
        ("seg_count"@, raw.seg_count@)
    } else if spec_parse_size(raw.lv_size@) is None {
        ("lv_size"@, raw.lv_size@)
    } else if spec_parse_i32(raw.lv_major@) is None {
        ("lv_major"@, raw.lv_major@)
    } else if spec_parse_i32(raw.lv_minor@) is None {
        ("lv_minor"@, raw.lv_minor@)
    } else if spec_parse_i32(raw.lv_kernel_major@) is None {
        ("lv_kernel_major"@, raw.lv_kernel_major@)
    } else {
        ("lv_kernel_minor"@, raw.lv_kernel_minor@)
    }
}

/// Converts a raw logical-volume row into a typed record.  Succeeds
/// exactly when every numeric field converts; a malformed field fails
/// the whole row with a conversion error naming the first offending
/// field and its text.
pub fn parse_lv_row(raw: RawLvRow) -> (r: Result<LogicalVolumeReport, LvmError>)
    ensures
        r is Ok <==> spec_lv_row_ok(raw),
        r matches Ok(rep) ==> ({
            &&& rep.lv_name@ == raw.lv_name@
            &&& rep.vg_name@ == raw.vg_name@
            &&& Some(rep.seg_count) == spec_parse_i32(raw.seg_count@)
            &&& rep.lv_attr@ == raw.lv_attr@
            &&& Some(rep.lv_size) == spec_parse_size(raw.lv_size@)
            &&& Some(rep.lv_major) == spec_parse_i32(raw.lv_major@)
            &&& Some(rep.lv_minor) == spec_parse_i32(raw.lv_minor@)
            &&& Some(rep.lv_kernel_major) == spec_parse_i32(raw.lv_kernel_major@)
            &&& Some(rep.lv_kernel_minor) == spec_parse_i32(raw.lv_kernel_minor@)
            &&& rep.pool_lv@ == raw.pool_lv@
            &&& rep.origin@ == raw.origin@
            &&& rep.data_percent@ == raw.data_percent@
            &&& rep.metadata_percent@ == raw.metadata_percent@
            &&& rep.move_pv@ == raw.move_pv@
            &&& rep.copy_percent@ == raw.copy_percent@
            &&& rep.mirror_log@ == raw.mirror_log@
            &&& rep.convert_lv@ == raw.convert_lv@
            &&& rep.lv_uuid@ == raw.lv_uuid@
            &&& rep.lv_profile@ == raw.lv_profile@
        }),
        r matches Err(e) ==> (e matches LvmError::FieldConversion { field, value } && field@
            == spec_lv_row_bad_field(raw).0 && value@ == spec_lv_row_bad_field(raw).1),
{
    let seg_count = match parse_i32(raw.seg_count.as_str()) {
        Some(v) => v,
        None => {
            return Err(
                LvmError::FieldConversion {
                    field: String::from_str("seg_count"),
                    value: raw.seg_count,
                },
            );
        },
    };
    let lv_size = match parse_size(raw.lv_size.as_str()) {
        Some(v) => v,
        None => {
            return Err(
                LvmError::FieldConversion { field: String::from_str("lv_size"), value: raw.lv_size },
            );
        },
    };
    let lv_major = match parse_i32(raw.lv_major.as_str()) {
        Some(v) => v,
        None => {
            return Err(
                LvmError::FieldConversion {
                    field: String::from_str("lv_major"),
                    value: raw.lv_major,
                },
            );
        },
    };
    let lv_minor = match parse_i32(raw.lv_minor.as_str()) {
        Some(v) => v,
        None => {
            return Err(
                LvmError::FieldConversion {
                    field: String::from_str("lv_minor"),
                    value: raw.lv_minor,
                },
            );
        },
    };
    let lv_kernel_major = match parse_i32(raw.lv_kernel_major.as_str()) {
        Some(v) => v,
        None => {
            return Err(
                LvmError::FieldConversion {
                    field: String::from_str("lv_kernel_major"),
                    value: raw.lv_kernel_major,
                },
            );
        },
    };
    let lv_kernel_minor = match parse_i32(raw.lv_kernel_minor.as_str()) {
        Some(v) => v,
        None => {
            return Err(
                LvmError::FieldConversion {
                    field: String::from_str("lv_kernel_minor"),
                    value: raw.lv_kernel_minor,
                },
            );
        },
    };
    Ok(
        LogicalVolumeReport {
            lv_name: raw.lv_name,
            vg_name: raw.vg_name,
            seg_count,
            lv_attr: raw.lv_attr,
            lv_size,
            lv_major,
            lv_minor,
            lv_kernel_major,
            lv_kernel_minor,
            pool_lv: raw.pool_lv,
            origin: raw.origin,
            data_percent: raw.data_percent,
            metadata_percent: raw.metadata_percent,
            move_pv: raw.move_pv,
            copy_percent: raw.copy_percent,
            mirror_log: raw.mirror_log,
            convert_lv: raw.convert_lv,
            lv_uuid: raw.lv_uuid,
            lv_profile: raw.lv_profile,
        },
    )
}

/// Whether every numeric field of a volume-group row converts.
pub open spec fn spec_vg_row_ok(raw: RawVgRow) -> bool {
    &&& spec_parse_size(raw.vg_extent_size@) is Some
    &&& spec_parse_u32(raw.pv_count@) is Some
    &&& spec_parse_u32(raw.lv_count@) is Some
    &&& spec_parse_u32(raw.snap_count@) is Some
    &&& spec_parse_size(raw.vg_size@) is Some
    &&& spec_parse_size(raw.vg_free@) is Some
}

/// The first numeric field of a volume-group row, in field order,
/// whose text does not convert, with that text.
pub open spec fn spec_vg_row_bad_field(raw: RawVgRow) -> (Seq<char>, Seq<char>) {
    if spec_parse_size(raw.vg_extent_size@) is None {
        ("vg_extent_size"@, raw.vg_extent_size@)
    } else if spec_parse_u32(raw.pv_count@) is None {
        ("pv_count"@, raw.pv_count@)
    } else if spec_parse_u32(raw.lv_count@) is None {
        ("lv_count"@, raw.lv_count@)
    } else if spec_parse_u32(raw.snap_count@) is None {
        ("snap_count"@, raw.snap_count@)
    } else if spec_parse_size(raw.vg_size@) is None {
        ("vg_size"@, raw.vg_size@)
    } else {
        ("vg_free"@, raw.vg_free@)
    }
}

/// Converts a raw volume-group row into a typed record, with the same
/// success condition and failure shape as the logical-volume rows.
pub fn parse_vg_row(raw: RawVgRow) -> (r: Result<VolumeGroupReport, LvmError>)
    ensures
        r is Ok <==> spec_vg_row_ok(raw),
        r matches Ok(rep) ==> ({
            &&& rep.vg_name@ == raw.vg_name@
            &&& rep.vg_attr@ == raw.vg_attr@
            &&& Some(rep.vg_extent_size) == spec_parse_size(raw.vg_extent_size@)
            &&& Some(rep.pv_count) == spec_parse_u32(raw.pv_count@)
            &&& Some(rep.lv_count) == spec_parse_u32(raw.lv_count@)
            &&& Some(rep.snap_count) == spec_parse_u32(raw.snap_count@)
            &&& Some(rep.vg_size) == spec_parse_size(raw.vg_size@)
            &&& Some(rep.vg_free) == spec_parse_size(raw.vg_free@)
            &&& rep.vg_uuid@ == raw.vg_uuid@
            &&& rep.vg_profile@ == raw.vg_profile@
        }),
        r matches Err(e) ==> (e matches LvmError::FieldConversion { field, value } && field@
            == spec_vg_row_bad_field(raw).0 && value@ == spec_vg_row_bad_field(raw).1),
{
    let vg_extent_size = match parse_size(raw.vg_extent_size.as_str()) {
        Some(v) => v,
        None => {
            return Err(
                LvmError::FieldConversion {
                    field: String::from_str("vg_extent_size"),
                    value: raw.vg_extent_size,
                },
            );
        },
    };
    let pv_count = match parse_u32(raw.pv_count.as_str()) {
        Some(v) => v,
        None => {
            return Err(
                LvmError::FieldConversion {
                    field: String::from_str("pv_count"),
                    value: raw.pv_count,
                },
            );
        },
    };
    let lv_count = match parse_u32(raw.lv_count.as_str()) {
        Some(v) => v,
        None => {
            return Err(
                LvmError::FieldConversion {
                    field: String::from_str("lv_count"),
                    value: raw.lv_count,
                },
            );
        },
    };
    let snap_count = match parse_u32(raw.snap_count.as_str()) {
        Some(v) => v,
        None => {
            return Err(
                LvmError::FieldConversion {
                    field: String::from_str("snap_count"),
                    value: raw.snap_count,
                },
            );
        },
    };
    let vg_size = match parse_size(raw.vg_size.as_str()) {
        Some(v) => v,
        None => {
            return Err(
                LvmError::FieldConversion { field: String::from_str("vg_size"), value: raw.vg_size },
            );
        },
    };
    let vg_free = match parse_size(raw.vg_free.as_str()) {
        Some(v) => v,
        None => {
            return Err(
                LvmError::FieldConversion { field: String::from_str("vg_free"), value: raw.vg_free },
            );
        },
    };
    Ok(
        VolumeGroupReport {
            vg_name: raw.vg_name,
            vg_attr: raw.vg_attr,
            vg_extent_size,
            pv_count,
            lv_count,
            snap_count,
            vg_size,
            vg_free,
            vg_uuid: raw.vg_uuid,
            vg_profile: raw.vg_profile,
        },
    )
}

/// Whether a row object carries every report field as a string.
pub open spec fn spec_lv_fields_ok(row: JsonTree) -> bool {
    &&& spec_row_field(row, "lv_name"@) is Some
    &&& spec_row_field(row, "vg_name"@) is Some
    &&& spec_row_field(row, "seg_count"@) is Some
    &&& spec_row_field(row, "lv_attr"@) is Some
    &&& spec_row_field(row, "lv_size"@) is Some
    &&& spec_row_field(row, "lv_major"@) is Some
    &&& spec_row_field(row, "lv_minor"@) is Some
    &&& spec_row_field(row, "lv_kernel_major"@) is Some
    &&& spec_row_field(row, "lv_kernel_minor"@) is Some
    &&& spec_row_field(row, "pool_lv"@) is Some
    &&& spec_row_field(row, "origin"@) is Some
    &&& spec_row_field(row, "data_percent"@) is Some
    &&& spec_row_field(row, "metadata_percent"@) is Some
    &&& spec_row_field(row, "move_pv"@) is Some
    &&& spec_row_field(row, "copy_percent"@) is Some
    &&& spec_row_field(row, "mirror_log"@) is Some
    &&& spec_row_field(row, "convert_lv"@) is Some
    &&& spec_row_field(row, "lv_uuid"@) is Some
    &&& spec_row_field(row, "lv_profile"@) is Some
}

/// The first field, in extraction order, that is missing or not a
/// string in a logical-volume row.
pub open spec fn spec_lv_first_missing(row: JsonTree) -> Seq<char> {
    if spec_row_field(row, "lv_name"@) is None {
        "lv_name"@
    } else if spec_row_field(row, "vg_name"@) is None {
        "vg_name"@
    } else if spec_row_field(row, "seg_count"@) is None {
        "seg_count"@
    } else if spec_row_field(row, "lv_attr"@) is None {
        "lv_attr"@
    } else if spec_row_field(row, "lv_size"@) is None {
        "lv_size"@
    } else if spec_row_field(row, "lv_major"@) is None {
        "lv_major"@
    } else if spec_row_field(row, "lv_minor"@) is None {
        "lv_minor"@
    } else if spec_row_field(row, "lv_kernel_major"@) is None {
        "lv_kernel_major"@
    } else if spec_row_field(row, "lv_kernel_minor"@) is None {
        "lv_kernel_minor"@
    } else if spec_row_field(row, "pool_lv"@) is None {
        "pool_lv"@
    } else if spec_row_field(row, "origin"@) is None {
        "origin"@
    } else if spec_row_field(row, "data_percent"@) is None {
        "data_percent"@
    } else if spec_row_field(row, "metadata_percent"@) is None {
        "metadata_percent"@
    } else if spec_row_field(row, "move_pv"@) is None {
        "move_pv"@
    } else if spec_row_field(row, "copy_percent"@) is None {
        "copy_percent"@
    } else if spec_row_field(row, "mirror_log"@) is None {
        "mirror_log"@
    } else if spec_row_field(row, "convert_lv"@) is None {
        "convert_lv"@
    } else if spec_row_field(row, "lv_uuid"@) is None {
        "lv_uuid"@
    } else {
        "lv_profile"@
    }
}

/// Whether a logical-volume row is well-formed: every field present as
/// a string, and every numeric field convertible.
pub open spec fn spec_lv_row_good(row: JsonTree) -> bool {
    &&& spec_lv_fields_ok(row)
    &&& spec_parse_i32(spec_row_field(row, "seg_count"@)->Some_0) is Some
    &&& spec_parse_size(spec_row_field(row, "lv_size"@)->Some_0) is Some
    &&& spec_parse_i32(spec_row_field(row, "lv_major"@)->Some_0) is Some
    &&& spec_parse_i32(spec_row_field(row, "lv_minor"@)->Some_0) is Some
    &&& spec_parse_i32(spec_row_field(row, "lv_kernel_major"@)->Some_0) is Some
    &&& spec_parse_i32(spec_row_field(row, "lv_kernel_minor"@)->Some_0) is Some
}

/// The first malformed numeric field of a logical-volume row whose
/// fields are all present, with its text.
pub open spec fn spec_lv_row_bad(row: JsonTree) -> (Seq<char>, Seq<char>) {
    if spec_parse_i32(spec_row_field(row, "seg_count"@)->Some_0) is None {
        ("seg_count"@, spec_row_field(row, "seg_count"@)->Some_0)
    } else if spec_parse_size(spec_row_field(row, "lv_size"@)->Some_0) is None {
        ("lv_size"@, spec_row_field(row, "lv_size"@)->Some_0)
    } else if spec_parse_i32(spec_row_field(row, "lv_major"@)->Some_0) is None {
        ("lv_major"@, spec_row_field(row, "lv_major"@)->Some_0)
    } else if spec_parse_i32(spec_row_field(row, "lv_minor"@)->Some_0) is None {
        ("lv_minor"@, spec_row_field(row, "lv_minor"@)->Some_0)
    } else if spec_parse_i32(spec_row_field(row, "lv_kernel_major"@)->Some_0) is None {
        ("lv_kernel_major"@, spec_row_field(row, "lv_kernel_major"@)->Some_0)
    } else {
        ("lv_kernel_minor"@, spec_row_field(row, "lv_kernel_minor"@)->Some_0)
    }
}

/// The error owed for one bad logical-volume row: a shape error naming
/// the first missing field, or a conversion error naming the first
/// malformed numeric field and its text.
pub open spec fn spec_lv_row_err(e: LvmError, row: JsonTree) -> bool {
    if spec_lv_fields_ok(row) {
        e matches LvmError::FieldConversion { field, value } && field@ == spec_lv_row_bad(row).0
            && value@ == spec_lv_row_bad(row).1
    } else {
        e matches LvmError::BadShape { context } && context@ == spec_lv_first_missing(row)
    }
}

/// The first row of a listing that is not well-formed.
pub open spec fn spec_first_bad_lv_row(rows: Seq<JsonTree>) -> Option<JsonTree>
    decreases rows.len(),
{
    if rows.len() == 0 {
        None
    } else if !spec_lv_row_good(rows[0]) {
        Some(rows[0])
    } else {
        spec_first_bad_lv_row(rows.skip(1))
    }
}

/// How a typed record corresponds to its source row: every string
/// field verbatim, every numeric field the converted text.
pub open spec fn spec_lv_rep_matches(rep: LogicalVolumeReport, row: JsonTree) -> bool {
    &&& Some(rep.lv_name@) == spec_row_field(row, "lv_name"@)
    &&& Some(rep.vg_name@) == spec_row_field(row, "vg_name"@)
    &&& Some(rep.seg_count) == spec_parse_i32(spec_row_field(row, "seg_count"@)->Some_0)
    &&& Some(rep.lv_attr@) == spec_row_field(row, "lv_attr"@)
    &&& Some(rep.lv_size) == spec_parse_size(spec_row_field(row, "lv_size"@)->Some_0)
    &&& Some(rep.lv_major) == spec_parse_i32(spec_row_field(row, "lv_major"@)->Some_0)
    &&& Some(rep.lv_minor) == spec_parse_i32(spec_row_field(row, "lv_minor"@)->Some_0)
    &&& Some(rep.lv_kernel_major) == spec_parse_i32(
        spec_row_field(row, "lv_kernel_major"@)->Some_0,
    )
    &&& Some(rep.lv_kernel_minor) == spec_parse_i32(
        spec_row_field(row, "lv_kernel_minor"@)->Some_0,
    )
    &&& Some(rep.pool_lv@) == spec_row_field(row, "pool_lv"@)
    &&& Some(rep.origin@) == spec_row_field(row, "origin"@)
    &&& Some(rep.data_percent@) == spec_row_field(row, "data_percent"@)
    &&& Some(rep.metadata_percent@) == spec_row_field(row, "metadata_percent"@)
    &&& Some(rep.move_pv@) == spec_row_field(row, "move_pv"@)
    &&& Some(rep.copy_percent@) == spec_row_field(row, "copy_percent"@)
    &&& Some(rep.mirror_log@) == spec_row_field(row, "mirror_log"@)
    &&& Some(rep.convert_lv@) == spec_row_field(row, "convert_lv"@)
    &&& Some(rep.lv_uuid@) == spec_row_field(row, "lv_uuid"@)
    &&& Some(rep.lv_profile@) == spec_row_field(row, "lv_profile"@)
}

/// Collects the textual fields of one logical-volume row; the first
/// missing or non-string field, in extraction order, is a shape error
/// naming it.
fn lv_row_from_json(row: &JsonTree) -> (r: Result<RawLvRow, LvmError>)
    ensures
        r is Ok <==> spec_lv_fields_ok(*row),
        r matches Ok(raw) ==> ({
            &&& raw.lv_name@ == spec_row_field(*row, "lv_name"@)->Some_0
            &&& raw.vg_name@ == spec_row_field(*row, "vg_name"@)->Some_0
            &&& raw.seg_count@ == spec_row_field(*row, "seg_count"@)->Some_0
            &&& raw.lv_attr@ == spec_row_field(*row, "lv_attr"@)->Some_0
            &&& raw.lv_size@ == spec_row_field(*row, "lv_size"@)->Some_0
            &&& raw.lv_major@ == spec_row_field(*row, "lv_major"@)->Some_0
            &&& raw.lv_minor@ == spec_row_field(*row, "lv_minor"@)->Some_0
            &&& raw.lv_kernel_major@ == spec_row_field(*row, "lv_kernel_major"@)->Some_0
            &&& raw.lv_kernel_minor@ == spec_row_field(*row, "lv_kernel_minor"@)->Some_0
            &&& raw.pool_lv@ == spec_row_field(*row, "pool_lv"@)->Some_0
            &&& raw.origin@ == spec_row_field(*row, "origin"@)->Some_0
            &&& raw.data_percent@ == spec_row_field(*row, "data_percent"@)->Some_0
            &&& raw.metadata_percent@ == spec_row_field(*row, "metadata_percent"@)->Some_0
            &&& raw.move_pv@ == spec_row_field(*row, "move_pv"@)->Some_0
            &&& raw.copy_percent@ == spec_row_field(*row, "copy_percent"@)->Some_0
            &&& raw.mirror_log@ == spec_row_field(*row, "mirror_log"@)->Some_0
            &&& raw.convert_lv@ == spec_row_field(*row, "convert_lv"@)->Some_0
            &&& raw.lv_uuid@ == spec_row_field(*row, "lv_uuid"@)->Some_0
            &&& raw.lv_profile@ == spec_row_field(*row, "lv_profile"@)->Some_0
        }),
        r matches Err(e) ==> (e matches LvmError::BadShape { context } && context@
            == spec_lv_first_missing(*row)),
{
    let lv_name = match get_string_field(row, "lv_name") {
        Ok(s) => s,
        Err(e) => { return Err(e); },
    };
    let vg_name = match get_string_field(row, "vg_name") {
        Ok(s) => s,
        Err(e) => { return Err(e); },
    };
    let seg_count = match get_string_field(row, "seg_count") {
        Ok(s) => s,
        Err(e) => { return Err(e); },
    };
    let lv_attr = match get_string_field(row, "lv_attr") {
        Ok(s) => s,
        Err(e) => { return Err(e); },
    };
    let lv_size = match get_string_field(row, "lv_size") {
        Ok(s) => s,
        Err(e) => { return Err(e); },
    };
    let lv_major = match get_string_field(row, "lv_major") {
        Ok(s) => s,
        Err(e) => { return Err(e); },
    };
    let lv_minor = match get_string_field(row, "lv_minor") {
        Ok(s) => s,
        Err(e) => { return Err(e); },
    };
    let lv_kernel_major = match get_string_field(row, "lv_kernel_major") {
        Ok(s) => s,
        Err(e) => { return Err(e); },
    };
    let lv_kernel_minor = match get_string_field(row, "lv_kernel_minor") {
        Ok(s) => s,
        Err(e) => { return Err(e); },
    };
    let pool_lv = match get_string_field(row, "pool_lv") {
        Ok(s) => s,
        Err(e) => { return Err(e); },
    };
    let origin = match get_string_field(row, "origin") {
        Ok(s) => s,
        Err(e) => { return Err(e); },
    };
    let data_percent = match get_string_field(row, "data_percent") {
        Ok(s) => s,
        Err(e) => { return Err(e); },
    };
    let metadata_percent = match get_string_field(row, "metadata_percent") {
        Ok(s) => s,
        Err(e) => { return Err(e); },
    };
    let move_pv = match get_string_field(row, "move_pv") {
        Ok(s) => s,
        Err(e) => { return Err(e); },
    };
    let copy_percent = match get_string_field(row, "copy_percent") {
        Ok(s) => s,
        Err(e) => { return Err(e); },
    };
    let mirror_log = match get_string_field(row, "mirror_log") {
        Ok(s) => s,
        Err(e) => { return Err(e); },
    };
    let convert_lv = match get_string_field(row, "convert_lv") {
        Ok(s) => s,
        Err(e) => { return Err(e); },
    };
    let lv_uuid = match get_string_field(row, "lv_uuid") {
        Ok(s) => s,
        Err(e) => { return Err(e); },
    };
    let lv_profile = match get_string_field(row, "lv_profile") {
        Ok(s) => s,
        Err(e) => { return Err(e); },
    };
    Ok(
        RawLvRow {
            lv_name,
            vg_name,
            seg_count,
            lv_attr,
            lv_size,
            lv_major,
            lv_minor,
            lv_kernel_major,
            lv_kernel_minor,
            pool_lv,
            origin,
            data_percent,
            metadata_percent,
            move_pv,
            copy_percent,
            mirror_log,
            convert_lv,
            lv_uuid,
            lv_profile,
        },
    )
}

/// Decodes the captured output of the logical-volume enumeration
/// command.  The contract fixes the whole outcome: a failed command
/// surfaces its standard-error text; a well-formed report yields
/// exactly its typed rows, in order; and each malformed input yields
/// its specific error.
pub fn lvs(out: &ToolOutput) -> (r: Result<Vec<LogicalVolumeReport>, LvmError>)
    ensures
        !out.success ==> (r matches Err(e) && (e matches LvmError::CommandFailed { tool, stderr }
            && tool@ == "lvs"@ && stderr@ == out.stderr@)),
        out.success ==> match spec_json_tree(out.stdout@) {
            None => r matches Err(e) && (e matches LvmError::InvalidJson { tool } && tool@
                == "lvs"@),
            Some(doc) => match spec_report_rows(doc, "lv"@) {
                None => r matches Err(e) && (e matches LvmError::BadShape { context } && context@
                    == "report[0]."@ + "lv"@),
                Some(rows) => match spec_first_bad_lv_row(rows) {
                    None => r matches Ok(reps) && reps@.len() == rows.len() && (forall|i: int|
                        0 <= i < rows.len() ==> spec_lv_rep_matches(#[trigger] reps@[i], rows[i])),
                    Some(row) => r matches Err(e) && spec_lv_row_err(e, row),
                },
            },
        },
{
    if !out.success {
        return Err(
            LvmError::CommandFailed { tool: String::from_str("lvs"), stderr: out.stderr.clone() },
        );
    }
    let doc = match json_tree_of(out.stdout.as_str()) {
        Some(t) => t,
        None => { return Err(LvmError::InvalidJson { tool: String::from_str("lvs") }); },
    };
    let rows = match rows_of_report(&doc, "lv") {
        Ok(v) => v,
        Err(e) => { return Err(e); },
    };
    let mut reps: Vec<LogicalVolumeReport> = Vec::new();
    let mut i: usize = 0;
    proof {
        assert(rows@.skip(0) =~= rows@);
    }
    while i < rows.len()
        invariant
            out.success,
            spec_json_tree(out.stdout@) == Some(doc),
            spec_report_rows(doc, "lv"@) == Some(rows@),
            i <= rows@.len(),
            reps@.len() == i,
            forall|j: int| 0 <= j < i ==> spec_lv_row_good(#[trigger] rows@[j]),
            forall|j: int| 0 <= j < i ==> spec_lv_rep_matches(#[trigger] reps@[j], rows@[j]),
            spec_first_bad_lv_row(rows@) == spec_first_bad_lv_row(rows@.skip(i as int)),
        decreases rows@.len() - i,
    {
        proof {
            assert(rows@.skip(i as int)[0] == rows@[i as int]);
        }
        let raw = match lv_row_from_json(&rows[i]) {
            Ok(v) => v,
            Err(e) => {
                proof {
                    assert(!spec_lv_row_good(rows@[i as int]));
                    assert(spec_first_bad_lv_row(rows@.skip(i as int)) == Some(rows@[i as int]));
                    assert(spec_lv_row_err(e, rows@[i as int]));
                }
                return Err(e);
            },
        };
        let rep = match parse_lv_row(raw) {
            Ok(v) => v,
            Err(e) => {
                proof {
                    assert(!spec_lv_row_good(rows@[i as int]));
                    assert(spec_first_bad_lv_row(rows@.skip(i as int)) == Some(rows@[i as int]));
                    assert(spec_lv_row_bad(rows@[i as int]) == spec_lv_row_bad_field(raw));
                    assert(spec_lv_row_err(e, rows@[i as int]));
                }
                return Err(e);
            },
        };
        proof {
            assert(spec_lv_row_good(rows@[i as int]));
            assert(spec_lv_rep_matches(rep, rows@[i as int]));
            assert(rows@.skip(i as int).skip(1) =~= rows@.skip(i + 1));
        }
        reps.push(rep);
        i = i + 1;
    }
    proof {
        assert(rows@.skip(rows@.len() as int) =~= Seq::<JsonTree>::empty());
    }
    Ok(reps)
}

/// Whether a volume-group row carries every report field as a string.
pub open spec fn spec_vg_fields_ok(row: JsonTree) -> bool {
    &&& spec_row_field(row, "vg_name"@) is Some
    &&& spec_row_field(row, "vg_attr"@) is Some
    &&& spec_row_field(row, "vg_extent_size"@) is Some
    &&& spec_row_field(row, "pv_count"@) is Some
    &&& spec_row_field(row, "lv_count"@) is Some
    &&& spec_row_field(row, "snap_count"@) is Some
    &&& spec_row_field(row, "vg_size"@) is Some
    &&& spec_row_field(row, "vg_free"@) is Some
    &&& spec_row_field(row, "vg_uuid"@) is Some
    &&& spec_row_field(row, "vg_profile"@) is Some
}

/// The first field, in extraction order, that is missing or not a
/// string in a volume-group row.
pub open spec fn spec_vg_first_missing(row: JsonTree) -> Seq<char> {
    if spec_row_field(row, "vg_name"@) is None {
        "vg_name"@
    } else if spec_row_field(row, "vg_attr"@) is None {
        "vg_attr"@
    } else if spec_row_field(row, "vg_extent_size"@) is None {
        "vg_extent_size"@
    } else if spec_row_field(row, "pv_count"@) is None {
        "pv_count"@
    } else if spec_row_field(row, "lv_count"@) is None {
        "lv_count"@
    } else if spec_row_field(row, "snap_count"@) is None {
        "snap_count"@
    } else if spec_row_field(row, "vg_size"@) is None {
        "vg_size"@
    } else if spec_row_field(row, "vg_free"@) is None {
        "vg_free"@
    } else if spec_row_field(row, "vg_uuid"@) is None {
        "vg_uuid"@
    } else {
        "vg_profile"@
    }
}

/// Whether a volume-group row is well-formed.
pub open spec fn spec_vg_row_good(row: JsonTree) -> bool {
    &&& spec_vg_fields_ok(row)
    &&& spec_parse_size(spec_row_field(row, "vg_extent_size"@)->Some_0) is Some
    &&& spec_parse_u32(spec_row_field(row, "pv_count"@)->Some_0) is Some
    &&& spec_parse_u32(spec_row_field(row, "lv_count"@)->Some_0) is Some
    &&& spec_parse_u32(spec_row_field(row, "snap_count"@)->Some_0) is Some
    &&& spec_parse_size(spec_row_field(row, "vg_size"@)->Some_0) is Some
    &&& spec_parse_size(spec_row_field(row, "vg_free"@)->Some_0) is Some
}

/// The first malformed numeric field of a volume-group row whose
/// fields are all present, with its text.
pub open spec fn spec_vg_row_bad(row: JsonTree) -> (Seq<char>, Seq<char>) {
    if spec_parse_size(spec_row_field(row, "vg_extent_size"@)->Some_0) is None {
        ("vg_extent_size"@, spec_row_field(row, "vg_extent_size"@)->Some_0)
    } else if spec_parse_u32(spec_row_field(row, "pv_count"@)->Some_0) is None {
        ("pv_count"@, spec_row_field(row, "pv_count"@)->Some_0)
    } else if spec_parse_u32(spec_row_field(row, "lv_count"@)->Some_0) is None {
        ("lv_count"@, spec_row_field(row, "lv_count"@)->Some_0)
    } else if spec_parse_u32(spec_row_field(row, "snap_count"@)->Some_0) is None {
        ("snap_count"@, spec_row_field(row, "snap_count"@)->Some_0)
    } else if spec_parse_size(spec_row_field(row, "vg_size"@)->Some_0) is None {
        ("vg_size"@, spec_row_field(row, "vg_size"@)->Some_0)
    } else {
        ("vg_free"@, spec_row_field(row, "vg_free"@)->Some_0)
    }
}

/// The error owed for one bad volume-group row.
pub open spec fn spec_vg_row_err(e: LvmError, row: JsonTree) -> bool {
    if spec_vg_fields_ok(row) {
        e matches LvmError::FieldConversion { field, value } && field@ == spec_vg_row_bad(row).0
            && value@ == spec_vg_row_bad(row).1
    } else {
        e matches LvmError::BadShape { context } && context@ == spec_vg_first_missing(row)
    }
}

/// The first row of a volume-group listing that is not well-formed.
pub open spec fn spec_first_bad_vg_row(rows: Seq<JsonTree>) -> Option<JsonTree>
    decreases rows.len(),
{
    if rows.len() == 0 {
        None
    } else if !spec_vg_row_good(rows[0]) {
        Some(rows[0])
    } else {
        spec_first_bad_vg_row(rows.skip(1))
    }
}

/// How a typed volume-group record corresponds to its source row.
pub open spec fn spec_vg_rep_matches(rep: VolumeGroupReport, row: JsonTree) -> bool {
    &&& Some(rep.vg_name@) == spec_row_field(row, "vg_name"@)
    &&& Some(rep.vg_attr@) == spec_row_field(row, "vg_attr"@)
    &&& Some(rep.vg_extent_size) == spec_parse_size(
        spec_row_field(row, "vg_extent_size"@)->Some_0,
    )
    &&& Some(rep.pv_count) == spec_parse_u32(spec_row_field(row, "pv_count"@)->Some_0)
    &&& Some(rep.lv_count) == spec_parse_u32(spec_row_field(row, "lv_count"@)->Some_0)
    &&& Some(rep.snap_count) == spec_parse_u32(spec_row_field(row, "snap_count"@)->Some_0)
    &&& Some(rep.vg_size) == spec_parse_size(spec_row_field(row, "vg_size"@)->Some_0)
    &&& Some(rep.vg_free) == spec_parse_size(spec_row_field(row, "vg_free"@)->Some_0)
    &&& Some(rep.vg_uuid@) == spec_row_field(row, "vg_uuid"@)
    &&& Some(rep.vg_profile@) == spec_row_field(row, "vg_profile"@)
}

/// Collects the textual fields of one volume-group row; the first
/// missing or non-string field, in extraction order, is a shape error
/// naming it.
fn vg_row_from_json(row: &JsonTree) -> (r: Result<RawVgRow, LvmError>)
    ensures
        r is Ok <==> spec_vg_fields_ok(*row),
        r matches Ok(raw) ==> ({
            &&& raw.vg_name@ == spec_row_field(*row, "vg_name"@)->Some_0
            &&& raw.vg_attr@ == spec_row_field(*row, "vg_attr"@)->Some_0
            &&& raw.vg_extent_size@ == spec_row_field(*row, "vg_extent_size"@)->Some_0
            &&& raw.pv_count@ == spec_row_field(*row, "pv_count"@)->Some_0
            &&& raw.lv_count@ == spec_row_field(*row, "lv_count"@)->Some_0
            &&& raw.snap_count@ == spec_row_field(*row, "snap_count"@)->Some_0
            &&& raw.vg_size@ == spec_row_field(*row, "vg_size"@)->Some_0
            &&& raw.vg_free@ == spec_row_field(*row, "vg_free"@)->Some_0
            &&& raw.vg_uuid@ == spec_row_field(*row, "vg_uuid"@)->Some_0
            &&& raw.vg_profile@ == spec_row_field(*row, "vg_profile"@)->Some_0
        }),
        r matches Err(e) ==> (e matches LvmError::BadShape { context } && context@
            == spec_vg_first_missing(*row)),
{
    let vg_name = match get_string_field(row, "vg_name") {
        Ok(s) => s,
        Err(e) => { return Err(e); },
    };
    let vg_attr = match get_string_field(row, "vg_attr") {
        Ok(s) => s,
        Err(e) => { return Err(e); },
    };
    let vg_extent_size = match get_string_field(row, "vg_extent_size") {
        Ok(s) => s,
        Err(e) => { return Err(e); },
    };
    let pv_count = match get_string_field(row, "pv_count") {
        Ok(s) => s,
        Err(e) => { return Err(e); },
    };
    let lv_count = match get_string_field(row, "lv_count") {
        Ok(s) => s,
        Err(e) => { return Err(e); },
    };
    let snap_count = match get_string_field(row, "snap_count") {
        Ok(s) => s,
        Err(e) => { return Err(e); },
    };
    let vg_size = match get_string_field(row, "vg_size") {
        Ok(s) => s,
        Err(e) => { return Err(e); },
    };
    let vg_free = match get_string_field(row, "vg_free") {
        Ok(s) => s,
        Err(e) => { return Err(e); },
    };
    let vg_uuid = match get_string_field(row, "vg_uuid") {
        Ok(s) => s,
        Err(e) => { return Err(e); },
    };
    let vg_profile = match get_string_field(row, "vg_profile") {
        Ok(s) => s,
        Err(e) => { return Err(e); },
    };
    Ok(
        RawVgRow {
            vg_name,
            vg_attr,
            vg_extent_size,
            pv_count,
            lv_count,
            snap_count,
            vg_size,
            vg_free,
            vg_uuid,
            vg_profile,
        },
    )
}

/// Decodes the captured output of the volume-group enumeration
/// command, with the same complete contract shape as the
/// logical-volume decoder.
pub fn vgs(out: &ToolOutput) -> (r: Result<Vec<VolumeGroupReport>, LvmError>)
    ensures
        !out.success ==> (r matches Err(e) && (e matches LvmError::CommandFailed { tool, stderr }
            && tool@ == "vgs"@ && stderr@ == out.stderr@)),
        out.success ==> match spec_json_tree(out.stdout@) {
            None => r matches Err(e) && (e matches LvmError::InvalidJson { tool } && tool@
                == "vgs"@),
            Some(doc) => match spec_report_rows(doc, "vg"@) {
                None => r matches Err(e) && (e matches LvmError::BadShape { context } && context@
                    == "report[0]."@ + "vg"@),
                Some(rows) => match spec_first_bad_vg_row(rows) {
                    None => r matches Ok(reps) && reps@.len() == rows.len() && (forall|i: int|
                        0 <= i < rows.len() ==> spec_vg_rep_matches(#[trigger] reps@[i], rows[i])),
                    Some(row) => r matches Err(e) && spec_vg_row_err(e, row),
                },
            },
        },
{
    if !out.success {
        return Err(
            LvmError::CommandFailed { tool: String::from_str("vgs"), stderr: out.stderr.clone() },
        );
    }
    let doc = match json_tree_of(out.stdout.as_str()) {
        Some(t) => t,
        None => { return Err(LvmError::InvalidJson { tool: String::from_str("vgs") }); },
    };
    let rows = match rows_of_report(&doc, "vg") {
        Ok(v) => v,
        Err(e) => { return Err(e); },
    };
    let mut reps: Vec<VolumeGroupReport> = Vec::new();
    let mut i: usize = 0;
    proof {
        assert(rows@.skip(0) =~= rows@);
    }
    while i < rows.len()
        invariant
            out.success,
            spec_json_tree(out.stdout@) == Some(doc),
            spec_report_rows(doc, "vg"@) == Some(rows@),
            i <= rows@.len(),
            reps@.len() == i,
            forall|j: int| 0 <= j < i ==> spec_vg_row_good(#[trigger] rows@[j]),
            forall|j: int| 0 <= j < i ==> spec_vg_rep_matches(#[trigger] reps@[j], rows@[j]),
            spec_first_bad_vg_row(rows@) == spec_first_bad_vg_row(rows@.skip(i as int)),
        decreases rows@.len() - i,
    {
        proof {
            assert(rows@.skip(i as int)[0] == rows@[i as int]);
        }
        let raw = match vg_row_from_json(&rows[i]) {
            Ok(v) => v,
            Err(e) => {
                proof {
                    assert(!spec_vg_row_good(rows@[i as int]));
                    assert(spec_first_bad_vg_row(rows@.skip(i as int)) == Some(rows@[i as int]));
                    assert(spec_vg_row_err(e, rows@[i as int]));
                }
                return Err(e);
            },
        };
        let rep = match parse_vg_row(raw) {
            Ok(v) => v,
            Err(e) => {
                proof {
                    assert(!spec_vg_row_good(rows@[i as int]));
                    assert(spec_first_bad_vg_row(rows@.skip(i as int)) == Some(rows@[i as int]));
                    assert(spec_vg_row_bad(rows@[i as int]) == spec_vg_row_bad_field(raw));
                    assert(spec_vg_row_err(e, rows@[i as int]));
                }
                return Err(e);
            },
        };
        proof {
            assert(spec_vg_row_good(rows@[i as int]));
            assert(spec_vg_rep_matches(rep, rows@[i as int]));
            assert(rows@.skip(i as int).skip(1) =~= rows@.skip(i + 1));
        }
        reps.push(rep);
        i = i + 1;
    }
    proof {
        assert(rows@.skip(rows@.len() as int) =~= Seq::<JsonTree>::empty());
    }
    Ok(reps)
}

} // verus!
