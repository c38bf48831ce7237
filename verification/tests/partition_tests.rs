use axinstall::command::Step;
use axinstall::eval::ConfigError;
use axinstall::partition::{
    fmt_mount, mount, partition, partition_with_efi, umount, DeviceNamer, Partition, PartitionMode,
};

fn run_parts(step: &Step) -> (String, Vec<String>, bool) {
    match step {
        Step::Run(c) => (c.program.clone(), c.args.clone(), c.in_target),
        _ => panic!("expected a fatal command step"),
    }
}

#[test]
fn manual_plan_sorts_by_mountpoint_length() {
    let mut parts = vec![
        Partition::new("/boot/efi".to_string(), "/dev/sda1".to_string(), "fat32".to_string()),
        Partition::new("/".to_string(), "/dev/sda2".to_string(), "ext4".to_string()),
        Partition::new("/boot".to_string(), "/dev/sda3".to_string(), "ext4".to_string()),
    ];
    let r = partition("", true, PartitionMode::Manual, true, &mut parts);
    assert!(r.is_ok());
    assert_eq!(parts[0].mountpoint, "/");
    assert_eq!(parts[1].mountpoint, "/boot");
    assert_eq!(parts[2].mountpoint, "/boot/efi");
}

#[test]
fn manual_plan_marks_efi_mountpoint_as_esp() {
    let mut parts = vec![
        Partition::new("/boot/efi".to_string(), "/dev/sda1".to_string(), "fat32".to_string()),
        Partition::new("/".to_string(), "/dev/sda2".to_string(), "ext4".to_string()),
    ];
    let steps = partition("", true, PartitionMode::Manual, true, &mut parts).unwrap();
    // sorted order: "/" first (format, mkdir, mount), so the EFI spec follows
    // with format, mkdir, mount, and the ESP mark last
    let (prog, args, t) = run_parts(&steps[steps.len() - 1]);
    assert!(!t);
    assert_eq!(prog, "parted");
    assert_eq!(args, vec!["-s", "/dev/sda1", "set", "1", "esp", "on"]);
}

#[test]
fn manual_plan_rerun_is_identical_and_errorless() {
    let descr = || {
        vec![
            Partition::new("/boot/efi".to_string(), "/dev/sda1".to_string(), "fat32".to_string()),
            Partition::new("/".to_string(), "/dev/sda2".to_string(), "ext4".to_string()),
        ]
    };
    let mut a = descr();
    let mut b = descr();
    let first = partition("", true, PartitionMode::Manual, true, &mut a).unwrap();
    let second = partition("", true, PartitionMode::Manual, true, &mut b).unwrap();
    assert_eq!(first.len(), second.len());
    for (x, y) in first.iter().zip(second.iter()) {
        match (x, y) {
            (Step::Run(c), Step::Run(d)) => {
                assert_eq!(c.program, d.program);
                assert_eq!(c.args, d.args);
            }
            (Step::CreateDir(p), Step::CreateDir(q)) => assert_eq!(p, q),
            _ => panic!("plans diverge between runs"),
        }
    }
}

#[test]
fn auto_standard_device_derives_bare_suffixes() {
    let mut none = Vec::new();
    let steps = partition("/dev/sda", true, PartitionMode::Auto, true, &mut none).unwrap();
    assert_eq!(steps.len(), 11);
    let (prog, args, _) = run_parts(&steps[4]);
    assert_eq!(prog, "mkfs.fat");
    assert_eq!(args, vec!["-F32", "/dev/sda1"]);
    let (prog, args, _) = run_parts(&steps[5]);
    assert_eq!(prog, "mkfs.ext4");
    assert_eq!(args, vec!["/dev/sda2"]);
    let (prog, args, _) = run_parts(&steps[6]);
    assert_eq!(prog, "mount");
    assert_eq!(args, vec!["/dev/sda2", "/mnt"]);
    assert!(matches!(&steps[7], Step::CreateDir(p) if p == "/mnt/boot"));
    assert!(matches!(&steps[8], Step::CreateDir(p) if p == "/mnt/boot/efi"));
    let (prog, args, _) = run_parts(&steps[9]);
    assert_eq!(prog, "mount");
    assert_eq!(args, vec!["/dev/sda1", "/mnt/boot/efi"]);
    let (prog, args, _) = run_parts(&steps[10]);
    assert_eq!(prog, "parted");
    assert_eq!(args, vec!["-s", "/dev/sda", "set", "1", "esp", "on"]);
}

#[test]
fn auto_nvme_device_derives_p_suffixes() {
    let mut none = Vec::new();
    let steps = partition("/dev/nvme0n1", true, PartitionMode::Auto, true, &mut none).unwrap();
    assert_eq!(steps.len(), 11);
    let (prog, args, _) = run_parts(&steps[4]);
    assert_eq!(prog, "mkfs.fat");
    assert_eq!(args, vec!["-F32", "/dev/nvme0n1p1"]);
    let (prog, args, _) = run_parts(&steps[5]);
    assert_eq!(prog, "mkfs.ext4");
    assert_eq!(args, vec!["/dev/nvme0n1p2"]);
    let (prog, args, _) = run_parts(&steps[9]);
    assert_eq!(prog, "mount");
    assert_eq!(args, vec!["/dev/nvme0n1p1", "/mnt/boot/efi"]);
}

#[test]
fn auto_nvme_without_efi_is_a_config_error() {
    let mut none = Vec::new();
    let r = partition("/dev/nvme0n1", true, PartitionMode::Auto, false, &mut none);
    match r {
        Err(ConfigError::EfiRequired { device }) => assert_eq!(device, "/dev/nvme0n1"),
        _ => panic!("an NVMe device without EFI must be rejected"),
    }
}

#[test]
fn auto_missing_device_is_a_config_error() {
    let mut none = Vec::new();
    let r = partition("/dev/sdz", false, PartitionMode::Auto, true, &mut none);
    match r {
        Err(ConfigError::MissingDevice { device }) => assert_eq!(device, "/dev/sdz"),
        _ => panic!("a missing device must be rejected"),
    }
}

#[test]
fn auto_standard_without_efi_uses_boot_directory() {
    let mut none = Vec::new();
    let steps = partition("/dev/sdb", true, PartitionMode::Auto, false, &mut none).unwrap();
    assert_eq!(steps.len(), 9);
    let (prog, args, _) = run_parts(&steps[4]);
    assert_eq!(prog, "mkfs.ext4");
    assert_eq!(args, vec!["/dev/sdb1"]);
    let (prog, args, _) = run_parts(&steps[6]);
    assert_eq!(prog, "mount");
    assert_eq!(args, vec!["/dev/sdb2", "/mnt/"]);
    assert!(matches!(&steps[7], Step::CreateDir(p) if p == "/mnt/boot"));
    let (prog, args, _) = run_parts(&steps[8]);
    assert_eq!(prog, "mount");
    assert_eq!(args, vec!["/dev/sdb1", "/mnt/boot"]);
}

#[test]
fn gpt_label_plan_is_four_parted_calls() {
    let steps = partition_with_efi("/dev/sda");
    assert_eq!(steps.len(), 4);
    let (prog, args, _) = run_parts(&steps[0]);
    assert_eq!(prog, "parted");
    assert_eq!(args, vec!["-s", "/dev/sda", "mklabel", "gpt"]);
    let (prog, args, _) = run_parts(&steps[1]);
    assert_eq!(prog, "parted");
    assert_eq!(args, vec!["-s", "/dev/sda", "mkpart", "fat32", "0", "300"]);
    let (prog, args, _) = run_parts(&steps[2]);
    assert_eq!(prog, "parted");
    assert_eq!(args, vec!["-s", "/dev/sda", "set", "1", "esp", "on"]);
    let (prog, args, _) = run_parts(&steps[3]);
    assert_eq!(prog, "parted");
    assert_eq!(args, vec!["-s", "/dev/sda", "mkpart", "primary", "ext4", "512MIB", "100%"]);
}

#[test]
fn fmt_mount_formats_known_filesystems() {
    let steps = fmt_mount("/data", "btrfs", "/dev/sdc1").unwrap();
    assert_eq!(steps.len(), 3);
    let (prog, args, _) = run_parts(&steps[0]);
    assert_eq!(prog, "mkfs.btrfs");
    assert_eq!(args, vec!["-f", "/dev/sdc1"]);
    let (prog, args, _) = run_parts(&steps[1]);
    assert_eq!(prog, "mkdir");
    assert_eq!(args, vec!["-p", "/data"]);
    let (prog, args, _) = run_parts(&steps[2]);
    assert_eq!(prog, "mount");
    assert_eq!(args, vec!["/dev/sdc1", "/data"]);
}

#[test]
fn fmt_mount_xfs_and_fat32_commands() {
    let steps = fmt_mount("/a", "xfs", "/dev/x").unwrap();
    let (prog, args, _) = run_parts(&steps[0]);
    assert_eq!(prog, "mkfs.xfs");
    assert_eq!(args, vec!["/dev/x"]);
    let steps = fmt_mount("/b", "fat32", "/dev/y").unwrap();
    let (prog, args, _) = run_parts(&steps[0]);
    assert_eq!(prog, "mkfs.fat");
    assert_eq!(args, vec!["-F32", "/dev/y"]);
}

#[test]
fn fmt_mount_noformat_still_mounts() {
    let steps = fmt_mount("/keep", "noformat", "/dev/sdd1").unwrap();
    assert_eq!(steps.len(), 2);
    let (prog, args, _) = run_parts(&steps[0]);
    assert_eq!(prog, "mkdir");
    assert_eq!(args, vec!["-p", "/keep"]);
    let (prog, args, _) = run_parts(&steps[1]);
    assert_eq!(prog, "mount");
    assert_eq!(args, vec!["/dev/sdd1", "/keep"]);
}

#[test]
fn fmt_mount_unknown_filesystem_is_rejected() {
    match fmt_mount("/", "zfs", "/dev/sda2") {
        Err(ConfigError::UnknownFilesystem { filesystem, blockdevice }) => {
            assert_eq!(filesystem, "zfs");
            assert_eq!(blockdevice, "/dev/sda2");
        }
        _ => panic!("an unknown filesystem must be rejected"),
    }
}

#[test]
fn manual_plan_unknown_filesystem_is_rejected() {
    let mut parts = vec![
        Partition::new("/".to_string(), "/dev/sda2".to_string(), "ext4".to_string()),
        Partition::new("/boot".to_string(), "/dev/sda1".to_string(), "zfs".to_string()),
    ];
    match partition("", true, PartitionMode::Manual, false, &mut parts) {
        Err(ConfigError::UnknownFilesystem { filesystem, blockdevice }) => {
            assert_eq!(filesystem, "zfs");
            assert_eq!(blockdevice, "/dev/sda1");
        }
        _ => panic!("an unknown filesystem in a manual plan must be rejected"),
    }
}

#[test]
fn device_namer_selects_by_path() {
    assert_eq!(DeviceNamer::of_device("/dev/sda"), DeviceNamer::Standard);
    assert_eq!(DeviceNamer::of_device("/dev/nvme0n1"), DeviceNamer::NvmeStyle);
    assert_eq!(DeviceNamer::of_device("/dev/mmcblk0"), DeviceNamer::NvmeStyle);
    assert_eq!(DeviceNamer::NvmeStyle.part_path("/dev/mmcblk0", 2), "/dev/mmcblk0p2");
    assert_eq!(DeviceNamer::Standard.part_path("/dev/sda", 1), "/dev/sda1");
}

#[test]
fn mount_with_and_without_options() {
    let c = mount("/dev/sda1", "/mnt", "");
    assert_eq!(c.program, "mount");
    assert_eq!(c.args, vec!["/dev/sda1", "/mnt"]);
    assert!(!c.in_target);
    let c = mount("/dev/sda1", "/mnt", "ro,noatime");
    assert_eq!(c.args, vec!["/dev/sda1", "/mnt", "-o", "ro,noatime"]);
}

#[test]
fn umount_names_the_mountpoint() {
    let c = umount("/mnt/boot/efi");
    assert_eq!(c.program, "umount");
    assert_eq!(c.args, vec!["/mnt/boot/efi"]);
}

#[test]
fn fmt_mount_accepts_the_long_noformat_tag() {
    let steps = fmt_mount("/keep2", "don't format", "/dev/sde1").unwrap();
    assert_eq!(steps.len(), 2);
    let (prog, args, _) = run_parts(&steps[1]);
    assert_eq!(prog, "mount");
    assert_eq!(args, vec!["/dev/sde1", "/keep2"]);
}
