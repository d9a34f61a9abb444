use panoramas::cfg::{Alert, AlertSeverity};
use panoramas::fs::cfg::{DiskUsageAlert, FsConfig};
use panoramas::fs::{parse_proc_mount_line, parse_proc_mounts, FsManager, Mount, MountError};

fn mount(device: &str, fstype: &str) -> Mount {
    Mount {
        device: device.to_string(),
        mountpoint: "/mnt".to_string(),
        fstype: fstype.to_string(),
        options: vec!["rw".to_string()],
    }
}

fn rule(limit: u8) -> DiskUsageAlert {
    DiskUsageAlert {
        usage_percent_limit: limit,
        device_path_exclude: None,
        fs_type_include: None,
        fs_type_exclude: None,
        alert: Alert {
            severity: AlertSeverity::Warning,
            on_startup: true,
            repeat_after_seconds: None,
            expire_after_seconds: Some(180),
            summary: "${device} on ${mountpoint} (${fstype}) at ${usage_percent}%".to_string(),
            message: None,
        },
    }
}

fn texts(items: &[&str]) -> Option<Vec<String>> {
    Some(items.iter().map(|x| x.to_string()).collect())
}

#[test]
fn test_parse_proc_mounts() {
    let input = r#"
devtmpfs /dev devtmpfs rw,nosuid,size=1604,nr_inodes=407,mode=755 0 0
devpts /dev/pts devpts rw,nosuid,noexec,relatime,gid=3,mode=620,ptmxmode=666 0 0
tmpfs /dev/shm tmpfs rw,nosuid,nodev 0 0
proc /proc proc rw,nosuid,nodev,noexec,relatime 0 0
tmpfs /run tmpfs rw,nosuid,nodev,size=8123,mode=755 0 0
ramfs /run/keys ramfs rw,nosuid,nodev,relatime,mode=750 0 0
        "#;

    let mounts = parse_proc_mounts(input).unwrap();

    assert_eq!(
        mounts,
        vec![
            Mount {
                device: "devtmpfs".to_string(),
                mountpoint: "/dev".to_string(),
                fstype: "devtmpfs".to_string(),
                options: vec![
                    "rw".to_string(),
                    "nosuid".to_string(),
                    "size=1604".to_string(),
                    "nr_inodes=407".to_string(),
                    "mode=755".to_string(),
                ]
            },
            Mount {
                device: "devpts".to_string(),
                mountpoint: "/dev/pts".to_string(),
                fstype: "devpts".to_string(),
                options: vec![
                    "rw".to_string(),
                    "nosuid".to_string(),
                    "noexec".to_string(),
                    "relatime".to_string(),
                    "gid=3".to_string(),
                    "mode=620".to_string(),
                    "ptmxmode=666".to_string(),
                ]
            },
            Mount {
                device: "tmpfs".to_string(),
                mountpoint: "/dev/shm".to_string(),
                fstype: "tmpfs".to_string(),
                options: vec!["rw".to_string(), "nosuid".to_string(), "nodev".to_string(),]
            },
            Mount {
                device: "proc".to_string(),
                mountpoint: "/proc".to_string(),
                fstype: "proc".to_string(),
                options: vec![
                    "rw".to_string(),
                    "nosuid".to_string(),
                    "nodev".to_string(),
                    "noexec".to_string(),
                    "relatime".to_string()
                ]
            },
            Mount {
                device: "tmpfs".to_string(),
                mountpoint: "/run".to_string(),
                fstype: "tmpfs".to_string(),
                options: vec![
                    "rw".to_string(),
                    "nosuid".to_string(),
                    "nodev".to_string(),
                    "size=8123".to_string(),
                    "mode=755".to_string()
                ]
            },
            Mount {
                device: "ramfs".to_string(),
                mountpoint: "/run/keys".to_string(),
                fstype: "ramfs".to_string(),
                options: vec![
                    "rw".to_string(),
                    "nosuid".to_string(),
                    "nodev".to_string(),
                    "relatime".to_string(),
                    "mode=750".to_string()
                ]
            },
        ]
    );
}

#[test]
fn empty_tables_hold_no_mounts() {
    assert_eq!(parse_proc_mounts("").unwrap(), Vec::<Mount>::new());
    assert_eq!(parse_proc_mounts("\n\n  \n\t\r\n").unwrap(), Vec::<Mount>::new());
}

#[test]
fn lines_end_with_or_without_carriage_return() {
    let mounts = parse_proc_mounts("a /a ext4 rw 0 0\r\n\r\nb /b xfs ro,noatime").unwrap();
    assert_eq!(mounts.len(), 2);
    assert_eq!(mounts[0], Mount {
        device: "a".to_string(),
        mountpoint: "/a".to_string(),
        fstype: "ext4".to_string(),
        options: vec!["rw".to_string()],
    });
    assert_eq!(mounts[1].options, vec!["ro", "noatime"]);
}

#[test]
fn four_fields_are_enough() {
    let m = parse_proc_mount_line("  /dev/sda1\t/  ext4   rw,,x, ").unwrap();
    assert_eq!(m.device, "/dev/sda1");
    assert_eq!(m.mountpoint, "/");
    assert_eq!(m.fstype, "ext4");
    assert_eq!(m.options, vec!["rw", "", "x", ""]);
}

#[test]
fn a_line_with_too_few_fields_lacks_the_next_one() {
    let e = parse_proc_mount_line("").unwrap_err();
    assert!(matches!(e, MountError::MissingDevice { .. }));
    assert_eq!(e.message(), "could not read device from line ''");
    let e = parse_proc_mount_line("devtmpfs").unwrap_err();
    assert!(matches!(e, MountError::MissingMountpoint { .. }));
    assert_eq!(e.message(), "could not read mountpoint from line 'devtmpfs'");
    let e = parse_proc_mount_line("devtmpfs /dev").unwrap_err();
    assert!(matches!(e, MountError::MissingFstype { .. }));
    assert_eq!(e.message(), "could not read fstype from line 'devtmpfs /dev'");
    let e = parse_proc_mount_line("devtmpfs /dev devtmpfs").unwrap_err();
    assert!(matches!(e, MountError::MissingOptions { .. }));
    assert_eq!(e.message(), "could not read options from line 'devtmpfs /dev devtmpfs'");
}

#[test]
fn the_first_bad_line_decides() {
    let e = parse_proc_mounts("a /a ext4 rw\n  b /b  \nc\n").unwrap_err();
    match &e {
        MountError::MissingFstype { line } => assert_eq!(line, "b /b"),
        other => panic!("wrong error: {:?}", other),
    }
}

#[test]
fn a_full_disk_raises_the_alert_of_its_device() {
    let r = rule(95);
    let m = Mount {
        device: "/dev/sda1".to_string(),
        mountpoint: "/home".to_string(),
        fstype: "ext4".to_string(),
        options: Vec::new(),
    };
    assert!(r.check(&m, 0).is_none());
    assert!(r.check(&m, 94).is_none());
    let alert = r.check(&m, 95).unwrap();
    assert_eq!(alert.group, "fs-/dev/sda1");
    assert_eq!(alert.variables.len(), 4);
    assert_eq!(alert.variables.get("usage_percent"), Some(&"95".to_string()));
    assert_eq!(alert.variables.get("device"), Some(&"/dev/sda1".to_string()));
    assert_eq!(alert.variables.get("mountpoint"), Some(&"/home".to_string()));
    assert_eq!(alert.variables.get("fstype"), Some(&"ext4".to_string()));
    assert_eq!(alert.render().0, "/dev/sda1 on /home (ext4) at 95%");
    assert_eq!(alert.alert.expire_after_seconds, Some(180));
    assert_eq!(r.check(&m, 255).unwrap().render().0, "/dev/sda1 on /home (ext4) at 255%");
    assert!(rule(0).check(&m, 0).is_some());
}

#[test]
fn excluded_and_not_included_mounts_are_passed_over() {
    let mut r = rule(50);
    r.device_path_exclude = texts(&["/dev/loop0", "/dev/loop1"]);
    assert!(r.check(&mount("/dev/loop1", "ext4"), 99).is_none());
    assert!(r.check(&mount("/dev/loop2", "ext4"), 99).is_some());

    let mut r = rule(50);
    r.fs_type_exclude = texts(&["tmpfs"]);
    assert!(r.check(&mount("a", "tmpfs"), 99).is_none());
    assert!(r.check(&mount("a", "tmpfs2"), 99).is_some());

    let mut r = rule(50);
    r.fs_type_include = texts(&["ext4", "xfs"]);
    assert!(r.check(&mount("a", "xfs"), 99).is_some());
    assert!(r.check(&mount("a", "btrfs"), 99).is_none());
    r.fs_type_include = texts(&[]);
    assert!(r.check(&mount("a", "xfs"), 99).is_none());

    let mut r = rule(50);
    r.fs_type_include = texts(&["ext4"]);
    r.fs_type_exclude = texts(&["ext4"]);
    assert!(r.check(&mount("a", "ext4"), 99).is_none());
}

#[test]
fn manager_uses_the_rule_of_its_configuration() {
    let m = FsManager::new(FsConfig::default());
    assert!(m.config().enabled);
    assert_eq!(m.config().check_interval_secs, 300);
    assert_eq!(m.config().disk_full_warning.as_ref().unwrap().usage_percent_limit, 95);
    assert!(m.handle_mount(&mount("/dev/sda1", "ext4"), 94).is_none());
    let alert = m.handle_mount(&mount("/dev/sda1", "ext4"), 96).unwrap();
    assert_eq!(alert.group, "fs-/dev/sda1");
    assert_eq!(alert.alert.severity, AlertSeverity::Warning);
    assert_eq!(alert.render().0, "Disk '{}' is almost full! (96%)");

    let mut c = FsConfig::default().clone();
    c.disk_full_warning = None;
    assert!(FsManager::new(c).handle_mount(&mount("/dev/sda1", "ext4"), 100).is_none());
}
