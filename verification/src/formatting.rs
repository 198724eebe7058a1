//! Filesystem formatting: the selectable filesystems, the fixed table that
//! maps each one to its maker program, label flag and bad-block support, and
//! the construction of the exact program invocations.
//!
//! Formatting a partition is two invocations: a signature wipe
//! (`wipefs -af <partition>`) and then the maker program. Both are built
//! here; the front end only spawns them and feeds the exit status back
//! through `spawn_outcome`.

use vstd::prelude::*;

use vstd::string::StringExecFns;

use crate::error::USBMakerError;
use crate::parted::FileSystemType;
use crate::text::str_eq;
use crate::text::views_of;

verus! {

/// The filesystems the tool can format a partition with.
#[derive(Clone, Copy, Debug, PartialEq, Eq, Structural)]
pub enum FileSystem {
    Btrfs,
    Exfat,
    Ext2,
    Ext3,
    Ext4,
    F2fs,
    Fat32,
    Ntfs,
    Udf,
    Xfs,
}

/// The name given for a filesystem was not one of the supported ones.
#[derive(Clone, Copy, Debug, PartialEq, Eq, Structural)]
pub struct FileSystemParseError;

impl FileSystemParseError {
    /// The description of this error.
    pub fn message(&self) -> (r: &'static str)
        ensures
            r@ == "unknown filesystem"@,
    {
        "unknown filesystem"
    }
}

impl FileSystem {
    /// The filesystem selected by `s`, tried in a fixed order of the
    /// supported names.
    pub open spec fn spec_from_token(s: Seq<char>) -> Result<
        FileSystem,
        FileSystemParseError,
    > {
        if s == "btrfs"@ {
            Ok(FileSystem::Btrfs)
        } else if s == "exfat"@ {
            Ok(FileSystem::Exfat)
        } else if s == "ext2"@ {
            Ok(FileSystem::Ext2)
        } else if s == "ext3"@ {
            Ok(FileSystem::Ext3)
        } else if s == "ext4"@ {
            Ok(FileSystem::Ext4)
        } else if s == "f2fs"@ {
            Ok(FileSystem::F2fs)
        } else if s == "fat32"@ {
            Ok(FileSystem::Fat32)
        } else if s == "ntfs"@ {
            Ok(FileSystem::Ntfs)
        } else if s == "udf"@ {
            Ok(FileSystem::Udf)
        } else if s == "xfs"@ {
            Ok(FileSystem::Xfs)
        } else {
            Err(FileSystemParseError)
        }
    }

    /// Parses a filesystem name.
    pub fn parse(s: &str) -> (r: Result<FileSystem, FileSystemParseError>)
        ensures
            r == FileSystem::spec_from_token(s@),
    {
        if str_eq(s, "btrfs") {
            Ok(FileSystem::Btrfs)
        } else if str_eq(s, "exfat") {
            Ok(FileSystem::Exfat)
        } else if str_eq(s, "ext2") {
            Ok(FileSystem::Ext2)
        } else if str_eq(s, "ext3") {
            Ok(FileSystem::Ext3)
        } else if str_eq(s, "ext4") {
            Ok(FileSystem::Ext4)
        } else if str_eq(s, "f2fs") {
            Ok(FileSystem::F2fs)
        } else if str_eq(s, "fat32") {
            Ok(FileSystem::Fat32)
        } else if str_eq(s, "ntfs") {
            Ok(FileSystem::Ntfs)
        } else if str_eq(s, "udf") {
            Ok(FileSystem::Udf)
        } else if str_eq(s, "xfs") {
            Ok(FileSystem::Xfs)
        } else {
            Err(FileSystemParseError)
        }
    }

    /// The maker program that creates this filesystem.
    pub open spec fn spec_executable(self) -> Seq<char> {
        match self {
            FileSystem::Btrfs => "mkfs.btrfs"@,
            FileSystem::Exfat => "mkfs.exfat"@,
            FileSystem::Ext2 => "mkfs.ext2"@,
            FileSystem::Ext3 => "mkfs.ext3"@,
            FileSystem::Ext4 => "mkfs.ext4"@,
            FileSystem::F2fs => "mkfs.f2fs"@,
            FileSystem::Fat32 => "mkfs.fat"@,
            FileSystem::Ntfs => "mkfs.ntfs"@,
            FileSystem::Udf => "mkfs.udf"@,
            FileSystem::Xfs => "mkfs.xfs"@,
        }
    }

    /// The maker program that creates this filesystem.
    pub fn executable(self) -> (r: &'static str)
        ensures
            r@ == self.spec_executable(),
    {
        match self {
            FileSystem::Btrfs => "mkfs.btrfs",
            FileSystem::Exfat => "mkfs.exfat",
            FileSystem::Ext2 => "mkfs.ext2",
            FileSystem::Ext3 => "mkfs.ext3",
            FileSystem::Ext4 => "mkfs.ext4",
            FileSystem::F2fs => "mkfs.f2fs",
            FileSystem::Fat32 => "mkfs.fat",
            FileSystem::Ntfs => "mkfs.ntfs",
            FileSystem::Udf => "mkfs.udf",
            FileSystem::Xfs => "mkfs.xfs",
        }
    }

    /// The flag under which this filesystem's maker program takes a label.
    pub open spec fn spec_label_flag(self) -> Seq<char> {
        match self {
            FileSystem::Btrfs => "-L"@,
            FileSystem::Exfat => "-n"@,
            FileSystem::Ext2 => "-L"@,
            FileSystem::Ext3 => "-L"@,
            FileSystem::Ext4 => "-L"@,
            FileSystem::F2fs => "-l"@,
            FileSystem::Fat32 => "-n"@,
            FileSystem::Ntfs => "-L"@,
            FileSystem::Udf => "-l"@,
            FileSystem::Xfs => "-L"@,
        }
    }

    /// The flag under which this filesystem's maker program takes a label.
    pub fn label_flag(self) -> (r: &'static str)
        ensures
            r@ == self.spec_label_flag(),
    {
        match self {
            FileSystem::Btrfs => "-L",
            FileSystem::Exfat => "-n",
            FileSystem::Ext2 => "-L",
            FileSystem::Ext3 => "-L",
            FileSystem::Ext4 => "-L",
            FileSystem::F2fs => "-l",
            FileSystem::Fat32 => "-n",
            FileSystem::Ntfs => "-L",
            FileSystem::Udf => "-l",
            FileSystem::Xfs => "-L",
        }
    }

    /// Whether the maker program supports a bad-block check. For the other
    /// kinds a requested check is silently ignored, not an error.
    pub open spec fn spec_badblocks_supported(self) -> bool {
        match self {
            FileSystem::Ext2 => true,
            FileSystem::Ext3 => true,
            FileSystem::Ext4 => true,
            FileSystem::Fat32 => true,
            _ => false,
        }
    }

    /// Whether the maker program supports a bad-block check.
    pub fn badblocks_supported(self) -> (r: bool)
        ensures
            r == self.spec_badblocks_supported(),
    {
        match self {
            FileSystem::Ext2 => true,
            FileSystem::Ext3 => true,
            FileSystem::Ext4 => true,
            FileSystem::Fat32 => true,
            _ => false,
        }
    }

    /// The partition-type hint recorded in the table for this filesystem.
    ///
    /// exfat and udf have no type code of their own and are recorded under
    /// the ntfs hint, f2fs under the ext4 hint; this affects only the stored
    /// partition-type code, never the filesystem made later.
    pub open spec fn spec_partition_hint(self) -> FileSystemType {
        match self {
            FileSystem::Btrfs => FileSystemType::Btrfs,
            FileSystem::Exfat => FileSystemType::Ntfs,
            FileSystem::Ext2 => FileSystemType::Ext2,
            FileSystem::Ext3 => FileSystemType::Ext3,
            FileSystem::Ext4 => FileSystemType::Ext4,
            FileSystem::F2fs => FileSystemType::Ext4,
            FileSystem::Fat32 => FileSystemType::Fat32,
            FileSystem::Ntfs => FileSystemType::Ntfs,
            FileSystem::Udf => FileSystemType::Ntfs,
            FileSystem::Xfs => FileSystemType::Xfs,
        }
    }

    /// The partition-type hint recorded in the table for this filesystem.
    pub fn partition_hint(self) -> (r: FileSystemType)
        ensures
            r == self.spec_partition_hint(),
    {
        match self {
            FileSystem::Btrfs => FileSystemType::Btrfs,
            FileSystem::Exfat => FileSystemType::Ntfs,
            FileSystem::Ext2 => FileSystemType::Ext2,
            FileSystem::Ext3 => FileSystemType::Ext3,
            FileSystem::Ext4 => FileSystemType::Ext4,
            FileSystem::F2fs => FileSystemType::Ext4,
            FileSystem::Fat32 => FileSystemType::Fat32,
            FileSystem::Ntfs => FileSystemType::Ntfs,
            FileSystem::Udf => FileSystemType::Ntfs,
            FileSystem::Xfs => FileSystemType::Xfs,
        }
    }
}

/// An external program invocation: the executable and its arguments.
pub struct Invocation {
    pub executable: String,
    pub args: Vec<String>,
}

/// `head` followed by each further word, space-separated.
pub open spec fn spec_joined(head: Seq<char>, rest: Seq<Seq<char>>) -> Seq<char>
    decreases rest.len(),
{
    if rest.len() == 0 {
        head
    } else {
        spec_joined(head + " "@ + rest.first(), rest.drop_first())
    }
}

/// Joining one more word appends a space and the word.
proof fn lemma_joined_push(head: Seq<char>, rest: Seq<Seq<char>>, x: Seq<char>)
    ensures
        spec_joined(head, rest.push(x)) == spec_joined(head, rest) + " "@ + x,
    decreases rest.len(),
{
    if rest.len() == 0 {
        assert(rest.push(x).first() == x);
        assert(rest.push(x).drop_first() =~= Seq::<Seq<char>>::empty());
        assert(spec_joined(head + " "@ + x, Seq::<Seq<char>>::empty()) == head + " "@ + x);
    } else {
        assert(rest.push(x).first() == rest.first());
        assert(rest.push(x).drop_first() =~= rest.drop_first().push(x));
        lemma_joined_push(head + " "@ + rest.first(), rest.drop_first(), x);
    }
}

impl Invocation {
    /// The command line this invocation renders as: the executable and the
    /// arguments, space-separated — the description failures are reported
    /// under.
    pub open spec fn spec_command_line(self) -> Seq<char> {
        spec_joined(self.executable@, views_of(self.args@))
    }

    /// Renders the command line: the executable and the arguments,
    /// space-separated.
    pub fn command_line(&self) -> (r: String)
        ensures
            r@ == self.spec_command_line(),
    {
        let mut s: String = self.executable.clone();
        proof {
            assert(views_of(self.args@.take(0)) =~= Seq::<Seq<char>>::empty());
        }
        let mut i: usize = 0;
        while i < self.args.len()
            invariant
                i <= self.args.len(),
                s@ == spec_joined(self.executable@, views_of(self.args@.take(i as int))),
            decreases self.args.len() - i,
        {
            s.append(" ");
            s.append(self.args[i].as_str());
            proof {
                assert(views_of(self.args@.take(i + 1)) =~= views_of(
                    self.args@.take(i as int),
                ).push(self.args@[i as int]@));
                lemma_joined_push(
                    self.executable@,
                    views_of(self.args@.take(i as int)),
                    self.args@[i as int]@,
                );
            }
            i = i + 1;
        }
        proof {
            assert(self.args@.take(self.args@.len() as int) =~= self.args@);
        }
        s
    }
}

/// The arguments a maker program always takes for `fs`, before any
/// bad-block or label flags: `-F32` selects FAT32 proper, and `-Q` asks the
/// ntfs maker for a quick format whenever no bad-block check was requested
/// (a check implies a full format; the two are mutually exclusive).
pub open spec fn spec_base_args(fs: FileSystem, check_badblocks: bool) -> Seq<Seq<char>> {
    if fs is Fat32 {
        seq!["-F32"@]
    } else if fs is Ntfs && !check_badblocks {
        seq!["-Q"@]
    } else {
        Seq::empty()
    }
}

/// The bad-block flag, present exactly when a check was requested and the
/// maker program supports one.
pub open spec fn spec_badblock_args(fs: FileSystem, check_badblocks: bool) -> Seq<Seq<char>> {
    if check_badblocks && fs.spec_badblocks_supported() {
        seq!["-c"@]
    } else {
        Seq::empty()
    }
}

/// The label flag and label, present exactly when a label was given.
pub open spec fn spec_label_args(fs: FileSystem, label: Option<Seq<char>>) -> Seq<Seq<char>> {
    match label {
        Some(l) => seq![fs.spec_label_flag(), l],
        None => Seq::empty(),
    }
}

/// The full argument list of the maker invocation: base flags, bad-block
/// flag, label, then the partition path.
pub open spec fn spec_format_args(
    fs: FileSystem,
    partition: Seq<char>,
    label: Option<Seq<char>>,
    check_badblocks: bool,
) -> Seq<Seq<char>> {
    spec_base_args(fs, check_badblocks) + spec_badblock_args(fs, check_badblocks) + spec_label_args(
        fs,
        label,
    ) + seq![partition]
}

/// The view of an optional label.
pub open spec fn spec_label_view(label: Option<&str>) -> Option<Seq<char>> {
    match label {
        Some(l) => Some(l@),
        None => None,
    }
}

/// Builds the maker-program invocation that formats `partition` as `fs`.
pub fn format_invocation(
    fs: FileSystem,
    partition: &str,
    label: Option<&str>,
    check_badblocks: bool,
) -> (r: Invocation)
    ensures
        r.executable@ == fs.spec_executable(),
        views_of(r.args@) == spec_format_args(
            fs,
            partition@,
            spec_label_view(label),
            check_badblocks,
        ),
{
    let mut args: Vec<String> = Vec::new();
    match fs {
        FileSystem::Fat32 => args.push("-F32".to_owned()),
        FileSystem::Ntfs => {
            if !check_badblocks {
                args.push("-Q".to_owned());
            }
        },
        _ => {},
    }
    proof {
        assert(views_of(args@) =~= spec_base_args(fs, check_badblocks));
    }
    if check_badblocks && fs.badblocks_supported() {
        args.push("-c".to_owned());
    }
    proof {
        assert(views_of(args@) =~= spec_base_args(fs, check_badblocks) + spec_badblock_args(
            fs,
            check_badblocks,
        ));
    }
    if let Some(l) = label {
        args.push(fs.label_flag().to_owned());
        args.push(l.to_owned());
    }
    proof {
        assert(views_of(args@) =~= spec_base_args(fs, check_badblocks) + spec_badblock_args(
            fs,
            check_badblocks,
        ) + spec_label_args(fs, spec_label_view(label)));
    }
    args.push(partition.to_owned());
    proof {
        assert(views_of(args@) =~= spec_format_args(
            fs,
            partition@,
            spec_label_view(label),
            check_badblocks,
        ));
    }
    Invocation { executable: fs.executable().to_owned(), args }
}

/// Builds the signature-wipe invocation that runs before any maker program:
/// `wipefs -af <partition>`.
pub fn wipe_invocation(partition: &str) -> (r: Invocation)
    ensures
        r.executable@ == "wipefs"@,
        views_of(r.args@) == seq!["-af"@, partition@],
{
    let mut args: Vec<String> = Vec::new();
    args.push("-af".to_owned());
    args.push(partition.to_owned());
    proof {
        assert(views_of(args@) =~= seq!["-af"@, partition@]);
    }
    Invocation { executable: "wipefs".to_owned(), args }
}

/// How an attempt to run an external command ended: it could not be
/// launched (with the launch error's text), or it exited with a status.
pub enum SpawnResult {
    LaunchFailed(String),
    Exited { success: bool, code: Option<i32> },
}

/// Turns the way an external command ended into the step's outcome: a
/// launch failure or an unsuccessful exit is the corresponding error, a
/// successful exit is success.
pub fn spawn_outcome(result: SpawnResult, command: String) -> (r: Result<(), USBMakerError>)
    ensures
        result matches SpawnResult::LaunchFailed(e) ==> r == Err::<(), USBMakerError>(
            USBMakerError::CommandLaunchFailed(e, command),
        ),
        result matches SpawnResult::Exited { success: true, .. } ==> r is Ok,
        result matches SpawnResult::Exited { success: false, code } ==> r == Err::<
            (),
            USBMakerError,
        >(USBMakerError::CommandFailed(code, command)),
{
    match result {
        SpawnResult::LaunchFailed(e) => Err(USBMakerError::CommandLaunchFailed(e, command)),
        SpawnResult::Exited { success, code } => {
            if success {
                Ok(())
            } else {
                Err(USBMakerError::CommandFailed(code, command))
            }
        },
    }
}

impl core::str::FromStr for FileSystem {
    type Err = FileSystemParseError;

    fn from_str(s: &str) -> (r: Result<FileSystem, FileSystemParseError>) {
        FileSystem::parse(s)
    }
}

} // verus!
