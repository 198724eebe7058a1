use usbmaker::formatting::{
    format_invocation, spawn_outcome, wipe_invocation, FileSystem, FileSystemParseError,
    SpawnResult,
};
use usbmaker::error::USBMakerError;
use usbmaker::parted::FileSystemType;

#[test]
fn parse_accepts_every_supported_filesystem() {
    assert_eq!(FileSystem::parse("btrfs"), Ok(FileSystem::Btrfs));
    assert_eq!(FileSystem::parse("exfat"), Ok(FileSystem::Exfat));
    assert_eq!(FileSystem::parse("ext2"), Ok(FileSystem::Ext2));
    assert_eq!(FileSystem::parse("ext3"), Ok(FileSystem::Ext3));
    assert_eq!(FileSystem::parse("ext4"), Ok(FileSystem::Ext4));
    assert_eq!(FileSystem::parse("f2fs"), Ok(FileSystem::F2fs));
    assert_eq!(FileSystem::parse("fat32"), Ok(FileSystem::Fat32));
    assert_eq!(FileSystem::parse("ntfs"), Ok(FileSystem::Ntfs));
    assert_eq!(FileSystem::parse("udf"), Ok(FileSystem::Udf));
    assert_eq!(FileSystem::parse("xfs"), Ok(FileSystem::Xfs));
}

#[test]
fn parse_rejects_unknown_names() {
    assert_eq!(FileSystem::parse("vfat"), Err(FileSystemParseError));
    assert_eq!(FileSystem::parse(""), Err(FileSystemParseError));
    assert_eq!(FileSystem::parse("EXT4"), Err(FileSystemParseError));
    assert_eq!(FileSystemParseError.message(), "unknown filesystem");
}

#[test]
fn from_str_matches_parse() {
    let fs: FileSystem = "fat32".parse().unwrap();
    assert_eq!(fs, FileSystem::Fat32);
    assert!("hfs".parse::<FileSystem>().is_err());
}

#[test]
fn maker_executables() {
    assert_eq!(FileSystem::Btrfs.executable(), "mkfs.btrfs");
    assert_eq!(FileSystem::Exfat.executable(), "mkfs.exfat");
    assert_eq!(FileSystem::Ext2.executable(), "mkfs.ext2");
    assert_eq!(FileSystem::Ext3.executable(), "mkfs.ext3");
    assert_eq!(FileSystem::Ext4.executable(), "mkfs.ext4");
    assert_eq!(FileSystem::F2fs.executable(), "mkfs.f2fs");
    assert_eq!(FileSystem::Fat32.executable(), "mkfs.fat");
    assert_eq!(FileSystem::Ntfs.executable(), "mkfs.ntfs");
    assert_eq!(FileSystem::Udf.executable(), "mkfs.udf");
    assert_eq!(FileSystem::Xfs.executable(), "mkfs.xfs");
}

#[test]
fn label_flags_per_filesystem() {
    assert_eq!(FileSystem::Btrfs.label_flag(), "-L");
    assert_eq!(FileSystem::Ext2.label_flag(), "-L");
    assert_eq!(FileSystem::Ext3.label_flag(), "-L");
    assert_eq!(FileSystem::Ext4.label_flag(), "-L");
    assert_eq!(FileSystem::Ntfs.label_flag(), "-L");
    assert_eq!(FileSystem::Xfs.label_flag(), "-L");
    assert_eq!(FileSystem::Exfat.label_flag(), "-n");
    assert_eq!(FileSystem::Fat32.label_flag(), "-n");
    assert_eq!(FileSystem::F2fs.label_flag(), "-l");
    assert_eq!(FileSystem::Udf.label_flag(), "-l");
}

#[test]
fn badblock_support_is_ext_and_fat32_only() {
    assert!(FileSystem::Ext2.badblocks_supported());
    assert!(FileSystem::Ext3.badblocks_supported());
    assert!(FileSystem::Ext4.badblocks_supported());
    assert!(FileSystem::Fat32.badblocks_supported());
    assert!(!FileSystem::Btrfs.badblocks_supported());
    assert!(!FileSystem::Exfat.badblocks_supported());
    assert!(!FileSystem::F2fs.badblocks_supported());
    assert!(!FileSystem::Ntfs.badblocks_supported());
    assert!(!FileSystem::Udf.badblocks_supported());
    assert!(!FileSystem::Xfs.badblocks_supported());
}

#[test]
fn fat32_invocation_with_label_and_badblocks() {
    let inv = format_invocation(FileSystem::Fat32, "/dev/sdb1", Some("BOOT"), true);
    assert_eq!(inv.executable, "mkfs.fat");
    assert_eq!(inv.args, vec!["-F32", "-c", "-n", "BOOT", "/dev/sdb1"]);
}

#[test]
fn ntfs_quick_format_without_badblocks() {
    let inv = format_invocation(FileSystem::Ntfs, "/dev/sdb1", None, false);
    assert_eq!(inv.executable, "mkfs.ntfs");
    assert_eq!(inv.args, vec!["-Q", "/dev/sdb1"]);
}

#[test]
fn ntfs_badblock_check_excludes_quick_format() {
    // A requested check implies a full format: no -Q, and no -c either,
    // since the ntfs maker does not take one.
    let inv = format_invocation(FileSystem::Ntfs, "/dev/sdb1", Some("DATA"), true);
    assert_eq!(inv.args, vec!["-L", "DATA", "/dev/sdb1"]);
}

#[test]
fn ext4_invocation_with_badblocks() {
    let inv = format_invocation(FileSystem::Ext4, "/dev/sdc2", Some("root"), true);
    assert_eq!(inv.executable, "mkfs.ext4");
    assert_eq!(inv.args, vec!["-c", "-L", "root", "/dev/sdc2"]);
}

#[test]
fn btrfs_invocation_is_bare() {
    let inv = format_invocation(FileSystem::Btrfs, "/dev/sdd1", None, false);
    assert_eq!(inv.executable, "mkfs.btrfs");
    assert_eq!(inv.args, vec!["/dev/sdd1"]);
}

#[test]
fn badblock_request_is_ignored_for_unsupporting_kinds() {
    let inv = format_invocation(FileSystem::Xfs, "/dev/sdd1", None, true);
    assert_eq!(inv.args, vec!["/dev/sdd1"]);
    let inv = format_invocation(FileSystem::Udf, "/dev/sdd1", Some("u"), true);
    assert_eq!(inv.args, vec!["-l", "u", "/dev/sdd1"]);
}

#[test]
fn wipe_invocation_is_wipefs_af() {
    let inv = wipe_invocation("/dev/sdb1");
    assert_eq!(inv.executable, "wipefs");
    assert_eq!(inv.args, vec!["-af", "/dev/sdb1"]);
    assert_eq!(inv.command_line(), "wipefs -af /dev/sdb1");
}

#[test]
fn command_lines_are_space_separated() {
    let inv = format_invocation(FileSystem::Fat32, "/dev/sdb1", Some("BOOT"), true);
    assert_eq!(inv.command_line(), "mkfs.fat -F32 -c -n BOOT /dev/sdb1");
    let inv = format_invocation(FileSystem::Btrfs, "/dev/sdd1", None, false);
    assert_eq!(inv.command_line(), "mkfs.btrfs /dev/sdd1");
}

#[test]
fn spawn_outcome_maps_exit_states() {
    assert!(spawn_outcome(
        SpawnResult::Exited { success: true, code: Some(0) },
        "wipefs -af /dev/sdb1".to_string()
    )
    .is_ok());
    assert_eq!(
        spawn_outcome(
            SpawnResult::Exited { success: false, code: Some(32) },
            "mkfs.fat".to_string()
        ),
        Err(USBMakerError::CommandFailed(Some(32), "mkfs.fat".to_string()))
    );
    assert_eq!(
        spawn_outcome(
            SpawnResult::Exited { success: false, code: None },
            "mkfs.fat".to_string()
        ),
        Err(USBMakerError::CommandFailed(None, "mkfs.fat".to_string()))
    );
    assert_eq!(
        spawn_outcome(SpawnResult::LaunchFailed("not found".to_string()), "wipefs".to_string()),
        Err(USBMakerError::CommandLaunchFailed("not found".to_string(), "wipefs".to_string()))
    );
}

#[test]
fn partition_hints_follow_the_stand_in_rules() {
    assert_eq!(FileSystem::Btrfs.partition_hint(), FileSystemType::Btrfs);
    assert_eq!(FileSystem::Exfat.partition_hint(), FileSystemType::Ntfs);
    assert_eq!(FileSystem::Ext2.partition_hint(), FileSystemType::Ext2);
    assert_eq!(FileSystem::Ext3.partition_hint(), FileSystemType::Ext3);
    assert_eq!(FileSystem::Ext4.partition_hint(), FileSystemType::Ext4);
    assert_eq!(FileSystem::F2fs.partition_hint(), FileSystemType::Ext4);
    assert_eq!(FileSystem::Fat32.partition_hint(), FileSystemType::Fat32);
    assert_eq!(FileSystem::Ntfs.partition_hint(), FileSystemType::Ntfs);
    assert_eq!(FileSystem::Udf.partition_hint(), FileSystemType::Ntfs);
    assert_eq!(FileSystem::Xfs.partition_hint(), FileSystemType::Xfs);
}
