use lvm::{LogicalVolume, LogicalVolumeReport, LvmError, ToolOutput, VolumeGroup};

fn lv_report(lv_name: &str, vg_name: &str) -> LogicalVolumeReport {
    LogicalVolumeReport {
        lv_name: lv_name.to_string(),
        vg_name: vg_name.to_string(),
        seg_count: 1,
        lv_attr: "Vwi-aotz--".to_string(),
        lv_size: 1073741824,
        lv_major: -1,
        lv_minor: -1,
        lv_kernel_major: 254,
        lv_kernel_minor: 3,
        pool_lv: "thinpool".to_string(),
        origin: String::new(),
        data_percent: "0.00".to_string(),
        metadata_percent: String::new(),
        move_pv: String::new(),
        copy_percent: String::new(),
        mirror_log: String::new(),
        convert_lv: String::new(),
        lv_uuid: "abc-123".to_string(),
        lv_profile: String::new(),
    }
}

fn vg0() -> VolumeGroup {
    VolumeGroup {
        name: "vg0".to_string(),
        path: "/dev/vg0".to_string(),
    }
}

#[test]
fn from_report_binds_path() {
    let vg = vg0();
    let lv = LogicalVolume::from_report(&vg, lv_report("data1", "vg0"));
    assert_eq!(lv.name, "data1");
    assert_eq!(lv.path, "/dev/vg0/data1");
}

#[test]
fn volume_group_from_path() {
    let vg = VolumeGroup::from_path("/dev/vg_pool").unwrap();
    assert_eq!(vg.name, "vg_pool");
    assert_eq!(vg.path, "/dev/vg_pool");
}

#[test]
fn from_path_without_component_fails() {
    let err = VolumeGroup::from_path("/").unwrap_err();
    assert!(matches!(err, LvmError::NoFileName { .. }));
    let err = VolumeGroup::from_path("").unwrap_err();
    assert!(matches!(err, LvmError::NoFileName { .. }));
    let err = LogicalVolume::from_path("///").unwrap_err();
    assert!(matches!(err, LvmError::NoFileName { .. }));
}

#[test]
fn from_path_dot_components() {
    let vg = VolumeGroup::from_path("/dev/vg0/.").unwrap();
    assert_eq!(vg.name, "vg0");
    let err = VolumeGroup::from_path(".").unwrap_err();
    assert!(matches!(err, LvmError::NoFileName { .. }));
    let err = VolumeGroup::from_path("..").unwrap_err();
    assert!(matches!(err, LvmError::NoFileName { .. }));
    let err = VolumeGroup::from_path("/dev/vg0/..").unwrap_err();
    assert!(matches!(err, LvmError::NoFileName { .. }));
    let vg = VolumeGroup::from_path("./vg1").unwrap();
    assert_eq!(vg.name, "vg1");
    let vg = VolumeGroup::from_path("..name").unwrap();
    assert_eq!(vg.name, "..name");
}

#[test]
fn logical_volume_from_path() {
    let lv = LogicalVolume::from_path("/dev/vg0/data1").unwrap();
    assert_eq!(lv.name, "data1");
    assert_eq!(lv.path, "/dev/vg0/data1");
    let lv = LogicalVolume::from_path("/dev/vg0/data2/").unwrap();
    assert_eq!(lv.name, "data2");
}

#[test]
fn volumes_filters_by_group_in_order() {
    let vg = vg0();
    let rows = vec![
        lv_report("data1", "vg0"),
        lv_report("other", "vg1"),
        lv_report("data2", "vg0"),
        lv_report("stray", "vg2"),
        lv_report("data3", "vg0"),
    ];
    let vols = vg.volumes(rows);
    let names: Vec<&str> = vols.iter().map(|lv| lv.name.as_str()).collect();
    assert_eq!(names, ["data1", "data2", "data3"]);
    assert_eq!(vols[0].path, "/dev/vg0/data1");
    assert_eq!(vols[1].path, "/dev/vg0/data2");
    assert_eq!(vols[2].path, "/dev/vg0/data3");
}

#[test]
fn volumes_empty_is_not_an_error() {
    let vg = vg0();
    let rows = vec![lv_report("other", "vg1")];
    let vols = vg.volumes(rows);
    assert!(vols.is_empty());
    let none = vg.volumes(Vec::new());
    assert!(none.is_empty());
}

#[test]
fn create_volume_args_shape() {
    let vg = vg0();
    let args = vg.create_volume_args("data1", 1073741824);
    assert_eq!(
        args,
        ["-V", "1073741824B", "-T", "vg0/thinpool", "-n", "data1"]
    );
}

#[test]
fn create_volume_success() {
    let vg = vg0();
    let created = ToolOutput {
        success: true,
        stdout: String::new(),
        stderr: String::new(),
    };
    let rows = vec![lv_report("older", "vg0"), lv_report("data1", "vg0")];
    let lv = vg.create_volume("data1", &created, rows).unwrap();
    assert_eq!(lv.name, "data1");
    assert_eq!(lv.path, "/dev/vg0/data1");
}

#[test]
fn create_volume_missing_after_creation() {
    let vg = vg0();
    let created = ToolOutput {
        success: true,
        stdout: String::new(),
        stderr: String::new(),
    };
    let rows = vec![lv_report("older", "vg0"), lv_report("data1", "vg9")];
    let err = vg.create_volume("data1", &created, rows).unwrap_err();
    match err {
        LvmError::VolumeNotFound { name } => assert_eq!(name, "data1"),
        other => panic!("unexpected error: {:?}", other),
    }
}

#[test]
fn create_volume_command_failure() {
    let vg = vg0();
    let failed = ToolOutput {
        success: false,
        stdout: String::new(),
        stderr: "Cannot create new thin volume".to_string(),
    };
    let err = vg.create_volume("data1", &failed, Vec::new()).unwrap_err();
    match err {
        LvmError::CommandFailed { tool, stderr } => {
            assert_eq!(tool, "lvcreate");
            assert_eq!(stderr, "Cannot create new thin volume");
        }
        other => panic!("unexpected error: {:?}", other),
    }
}

#[test]
fn error_messages_name_the_cause() {
    let e = LvmError::CommandFailed {
        tool: "lvs".to_string(),
        stderr: "boom".to_string(),
    };
    assert_eq!(e.message(), "lvs failed: boom");
    let e = LvmError::FieldConversion {
        field: "lv_major".to_string(),
        value: "abc".to_string(),
    };
    assert_eq!(e.message(), "cannot convert field lv_major from abc");
    let e = LvmError::GroupNotFound {
        name: "vg9".to_string(),
    };
    assert_eq!(e.message(), "unable to get report for vg vg9");
}
