//! Partition-table vocabulary: the supported table types, the partition-type
//! hints a table can store, and the errors the partition-table library can
//! report.

use vstd::prelude::*;

use crate::text::str_eq;

verus! {

/// The supported partition tables.
#[derive(Clone, Copy, Debug, PartialEq, Eq, Structural)]
pub enum DiskType {
    GPT,
    MSDOS,
}

impl DiskType {
    /// The name under which the partition-table library knows this table.
    pub open spec fn spec_name(self) -> Seq<char> {
        match self {
            DiskType::GPT => "gpt"@,
            DiskType::MSDOS => "msdos"@,
        }
    }

    /// The name under which the partition-table library knows this table.
    pub fn name(&self) -> (r: &'static str)
        ensures
            r@ == self.spec_name(),
    {
        match self {
            DiskType::GPT => "gpt",
            DiskType::MSDOS => "msdos",
        }
    }

    /// The table type known under `name`, if any: the rule by which a probed
    /// table name, or one typed by the user, is recognised.
    pub fn from_name(name: &str) -> (r: Option<DiskType>)
        ensures
            name@ == DiskType::GPT.spec_name() ==> r == Some(DiskType::GPT),
            name@ == DiskType::MSDOS.spec_name() ==> r == Some(DiskType::MSDOS),
            r is Some <==> (name@ == DiskType::GPT.spec_name() || name@
                == DiskType::MSDOS.spec_name()),
            r matches Some(t) ==> t.spec_name() == name@,
    {
        proof {
            reveal_strlit("gpt");
            reveal_strlit("msdos");
            assert("gpt"@.len() == 3);
            assert("msdos"@.len() == 5);
        }
        if str_eq(name, "gpt") {
            Some(DiskType::GPT)
        } else if str_eq(name, "msdos") {
            Some(DiskType::MSDOS)
        } else {
            None
        }
    }
}

/// The partition-type hints the partition-table library can store for a
/// partition. The hint only selects the type byte or GUID recorded in the
/// table; the filesystem itself is made later by a maker program.
#[derive(Clone, Copy, Debug, PartialEq, Eq, Structural)]
pub enum FileSystemType {
    Btrfs,
    Ext2,
    Ext3,
    Ext4,
    Fat16,
    Fat32,
    Hfs,
    HfsPlus,
    Hfsx,
    HpUfs,
    Jfs,
    LinuxSwapV0,
    LinuxSwapV1,
    Nilfs2,
    Ntfs,
    Reiserfs,
    SunUfs,
    Swsusp,
    Xfs,
}

impl FileSystemType {
    /// The name under which the partition-table library knows this hint.
    pub open spec fn spec_name(self) -> Seq<char> {
        match self {
            FileSystemType::Btrfs => "btrfs"@,
            FileSystemType::Ext2 => "ext2"@,
            FileSystemType::Ext3 => "ext3"@,
            FileSystemType::Ext4 => "ext4"@,
            FileSystemType::Fat16 => "fat16"@,
            FileSystemType::Fat32 => "fat32"@,
            FileSystemType::Hfs => "hfs"@,
            FileSystemType::HfsPlus => "hfs+"@,
            FileSystemType::Hfsx => "hfsx"@,
            FileSystemType::HpUfs => "hp-ufs"@,
            FileSystemType::Jfs => "jfs"@,
            FileSystemType::LinuxSwapV0 => "linux-swap(v0)"@,
            FileSystemType::LinuxSwapV1 => "linux-swap(v1)"@,
            FileSystemType::Nilfs2 => "nilfs2"@,
            FileSystemType::Ntfs => "ntfs"@,
            FileSystemType::Reiserfs => "reiserfs"@,
            FileSystemType::SunUfs => "sun-ufs"@,
            FileSystemType::Swsusp => "swsusp"@,
            FileSystemType::Xfs => "xfs"@,
        }
    }

    /// The name under which the partition-table library knows this hint.
    pub fn name(&self) -> (r: &'static str)
        ensures
            r@ == self.spec_name(),
    {
        match self {
            FileSystemType::Btrfs => "btrfs",
            FileSystemType::Ext2 => "ext2",
            FileSystemType::Ext3 => "ext3",
            FileSystemType::Ext4 => "ext4",
            FileSystemType::Fat16 => "fat16",
            FileSystemType::Fat32 => "fat32",
            FileSystemType::Hfs => "hfs",
            FileSystemType::HfsPlus => "hfs+",
            FileSystemType::Hfsx => "hfsx",
            FileSystemType::HpUfs => "hp-ufs",
            FileSystemType::Jfs => "jfs",
            FileSystemType::LinuxSwapV0 => "linux-swap(v0)",
            FileSystemType::LinuxSwapV1 => "linux-swap(v1)",
            FileSystemType::Nilfs2 => "nilfs2",
            FileSystemType::Ntfs => "ntfs",
            FileSystemType::Reiserfs => "reiserfs",
            FileSystemType::SunUfs => "sun-ufs",
            FileSystemType::Swsusp => "swsusp",
            FileSystemType::Xfs => "xfs",
        }
    }
}

/// The ways the partition-table library can fail, one variant per call site:
/// a null handle from each lookup or constructor, and the calls that report
/// failure by their result.
#[derive(Debug, PartialEq)]
pub enum PartedError {
    NullPedDevice,
    NullPedDiskType,
    NullPedDisk,
    NullPedFileSystemType,
    NullPedPartition,
    NullPedGeometry,
    NullPedConstraint,
    CommitFail,
    AddPartitionFail,
    SyncFail,
    UnknownPartitionTable(String),
}

impl PartedError {
    /// The fixed description of this error kind.
    pub open spec fn spec_message(self) -> Seq<char> {
        match self {
            PartedError::NullPedDevice => "Libparted returned a null PedDevice"@,
            PartedError::NullPedDiskType => "Libparted returned a null PedDiskType"@,
            PartedError::NullPedDisk => "Libparted returned a null PedDisk"@,
            PartedError::NullPedFileSystemType => "Libparted returned a null PedFileSystemType"@,
            PartedError::NullPedPartition => "Libparted returned a null PedPartition"@,
            PartedError::NullPedGeometry => "Libparted returned a null PedGeometry"@,
            PartedError::NullPedConstraint => "Libparted returned a null PedConstraint"@,
            PartedError::CommitFail => "Libparted failed to commit the changes"@,
            PartedError::AddPartitionFail => "Libparted failed to add the partition"@,
            PartedError::SyncFail => "Libparted failed to flush the write cache"@,
            PartedError::UnknownPartitionTable(_) => "Unknown partition table"@,
        }
    }

    /// The fixed description of this error kind.
    pub fn message(&self) -> (r: &'static str)
        ensures
            r@ == self.spec_message(),
    {
        match self {
            PartedError::NullPedDevice => "Libparted returned a null PedDevice",
            PartedError::NullPedDiskType => "Libparted returned a null PedDiskType",
            PartedError::NullPedDisk => "Libparted returned a null PedDisk",
            PartedError::NullPedFileSystemType => "Libparted returned a null PedFileSystemType",
            PartedError::NullPedPartition => "Libparted returned a null PedPartition",
            PartedError::NullPedGeometry => "Libparted returned a null PedGeometry",
            PartedError::NullPedConstraint => "Libparted returned a null PedConstraint",
            PartedError::CommitFail => "Libparted failed to commit the changes",
            PartedError::AddPartitionFail => "Libparted failed to add the partition",
            PartedError::SyncFail => "Libparted failed to flush the write cache",
            PartedError::UnknownPartitionTable(_) => "Unknown partition table",
        }
    }
}

/// What a probed table name means: a supported table type, or the name kept
/// as an `UnknownPartitionTable` error.
pub fn probe_result(name: String) -> (r: Result<DiskType, PartedError>)
    ensures
        name@ == DiskType::GPT.spec_name() ==> r == Ok::<DiskType, PartedError>(DiskType::GPT),
        name@ == DiskType::MSDOS.spec_name() ==> r == Ok::<DiskType, PartedError>(DiskType::MSDOS),
        r is Ok <==> (name@ == DiskType::GPT.spec_name() || name@ == DiskType::MSDOS.spec_name()),
        r matches Err(e) ==> e == PartedError::UnknownPartitionTable(name),
{
    match DiskType::from_name(name.as_str()) {
        Some(t) => Ok(t),
        None => Err(PartedError::UnknownPartitionTable(name)),
    }
}

} // verus!
