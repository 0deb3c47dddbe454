use lvm::{LvmError, ToolOutput, VolumeGroup, VolumeGroupReport};

fn lv_row_json(lv_name: &str, vg_name: &str, lv_size: &str, lv_major: &str) -> String {
    format!(
        "{{\"lv_name\":\"{}\", \"vg_name\":\"{}\", \"seg_count\":\"1\", \"lv_attr\":\"Vwi-aotz--\", \"lv_size\":\"{}\", \"lv_major\":\"{}\", \"lv_minor\":\"-1\", \"lv_kernel_major\":\"254\", \"lv_kernel_minor\":\"3\", \"pool_lv\":\"thinpool\", \"origin\":\"\", \"data_percent\":\"0.00\", \"metadata_percent\":\"\", \"move_pv\":\"\", \"copy_percent\":\"\", \"mirror_log\":\"\", \"convert_lv\":\"\", \"lv_uuid\":\"u-1\", \"lv_profile\":\"\"}}",
        lv_name, vg_name, lv_size, lv_major
    )
}

fn lvs_doc(rows: &[String]) -> String {
    format!("{{\"report\": [{{\"lv\": [{}]}}]}}", rows.join(", "))
}

fn ok_output(stdout: String) -> ToolOutput {
    ToolOutput {
        success: true,
        stdout,
        stderr: String::new(),
    }
}

fn vg_row_json(vg_name: &str, vg_free: &str) -> String {
    format!(
        "{{\"vg_name\":\"{}\", \"vg_attr\":\"wz--n-\", \"vg_extent_size\":\"4194304B\", \"pv_count\":\"1\", \"lv_count\":\"2\", \"snap_count\":\"0\", \"vg_size\":\"128849018880B\", \"vg_free\":\"{}\", \"vg_uuid\":\"g-1\", \"vg_profile\":\"\"}}",
        vg_name, vg_free
    )
}

fn vgs_doc(rows: &[String]) -> String {
    format!("{{\"report\": [{{\"vg\": [{}]}}]}}", rows.join(", "))
}

#[test]
fn lvs_decodes_rows() {
    let doc = lvs_doc(&[
        lv_row_json("data1", "vg0", "1073741824B", "-1"),
        lv_row_json("data2", "vg1", "2147483648B", "254"),
    ]);
    let rows = lvm::lvs(&ok_output(doc)).unwrap();
    assert_eq!(rows.len(), 2);
    assert_eq!(rows[0].lv_name, "data1");
    assert_eq!(rows[0].vg_name, "vg0");
    assert_eq!(rows[0].seg_count, 1);
    assert_eq!(rows[0].lv_size, 1073741824);
    assert_eq!(rows[0].lv_major, -1);
    assert_eq!(rows[0].lv_kernel_major, 254);
    assert_eq!(rows[0].pool_lv, "thinpool");
    assert_eq!(rows[1].lv_name, "data2");
    assert_eq!(rows[1].lv_size, 2147483648);
    assert_eq!(rows[1].lv_major, 254);
}

#[test]
fn lvs_command_failure_carries_stderr() {
    let out = ToolOutput {
        success: false,
        stdout: String::new(),
        stderr: "  /dev/sda: open failed".to_string(),
    };
    let err = lvm::lvs(&out).unwrap_err();
    match err {
        LvmError::CommandFailed { tool, stderr } => {
            assert_eq!(tool, "lvs");
            assert_eq!(stderr, "  /dev/sda: open failed");
        }
        other => panic!("unexpected error: {:?}", other),
    }
}

#[test]
fn lvs_rejects_invalid_json() {
    let err = lvm::lvs(&ok_output("not json at all".to_string())).unwrap_err();
    assert!(matches!(err, LvmError::InvalidJson { .. }));
}

#[test]
fn lvs_rejects_wrong_shape() {
    let err = lvm::lvs(&ok_output("{\"report\": []}".to_string())).unwrap_err();
    assert!(matches!(err, LvmError::BadShape { .. }));
    let err = lvm::lvs(&ok_output("{}".to_string())).unwrap_err();
    assert!(matches!(err, LvmError::BadShape { .. }));
}

#[test]
fn lvs_missing_field_is_shape_error() {
    let doc = "{\"report\": [{\"lv\": [{\"lv_name\":\"data1\"}]}]}".to_string();
    let err = lvm::lvs(&ok_output(doc)).unwrap_err();
    assert!(matches!(err, LvmError::BadShape { .. }));
}

#[test]
fn malformed_numeric_field_fails_closed() {
    let doc = lvs_doc(&[lv_row_json("data1", "vg0", "1073741824B", "abc")]);
    let err = lvm::lvs(&ok_output(doc)).unwrap_err();
    match err {
        LvmError::FieldConversion { field, value } => {
            assert_eq!(field, "lv_major");
            assert_eq!(value, "abc");
        }
        other => panic!("unexpected error: {:?}", other),
    }
}

#[test]
fn vgs_decodes_rows() {
    let doc = vgs_doc(&[vg_row_json("vg0", "53687091200B")]);
    let rows = lvm::vgs(&ok_output(doc)).unwrap();
    assert_eq!(rows.len(), 1);
    assert_eq!(rows[0].vg_name, "vg0");
    assert_eq!(rows[0].vg_attr, "wz--n-");
    assert_eq!(rows[0].vg_extent_size, 4194304);
    assert_eq!(rows[0].pv_count, 1);
    assert_eq!(rows[0].lv_count, 2);
    assert_eq!(rows[0].snap_count, 0);
    assert_eq!(rows[0].vg_size, 128849018880);
    assert_eq!(rows[0].vg_free, 53687091200);
    assert_eq!(rows[0].vg_uuid, "g-1");
}

fn vg_report(vg_name: &str) -> VolumeGroupReport {
    VolumeGroupReport {
        vg_name: vg_name.to_string(),
        vg_attr: "wz--n-".to_string(),
        vg_extent_size: 4194304,
        pv_count: 1,
        lv_count: 0,
        snap_count: 0,
        vg_size: 128849018880,
        vg_free: 53687091200,
        vg_uuid: "g-1".to_string(),
        vg_profile: String::new(),
    }
}

#[test]
fn report_finds_matching_group() {
    let vg = VolumeGroup {
        name: "vg1".to_string(),
        path: "/dev/vg1".to_string(),
    };
    let rows = vec![vg_report("vg0"), vg_report("vg1"), vg_report("vg2")];
    let rep = vg.report(rows).unwrap();
    assert_eq!(rep.vg_name, "vg1");
}

#[test]
fn report_on_missing_group_is_lookup_error() {
    let vg = VolumeGroup {
        name: "vg9".to_string(),
        path: "/dev/vg9".to_string(),
    };
    let rows = vec![vg_report("vg0"), vg_report("vg1")];
    let err = vg.report(rows).unwrap_err();
    match err {
        LvmError::GroupNotFound { name } => assert_eq!(name, "vg9"),
        other => panic!("unexpected error: {:?}", other),
    }
    let err = vg.report(Vec::new()).unwrap_err();
    assert!(matches!(err, LvmError::GroupNotFound { .. }));
}
