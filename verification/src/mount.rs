//! Scoped mounts: a source (an image file or a partition) mounted read-only
//! onto a fresh temporary directory for the pipeline's duration.
//!
//! The front end creates the temporary directory, runs the mount command and
//! later the unmount command; this module decides what each outcome means.
//! The rules it pins down: a failed acquisition never leaves the temporary
//! directory behind, and on release the mountpoint directory is removed only
//! if unmounting succeeded (a still-mounted directory must not be deleted;
//! the system's temporary-file cleanup reclaims it instead). Release never
//! raises: it only reports what to do.

use vstd::prelude::*;

use crate::formatting::Invocation;
use crate::text::views_of;

verus! {

/// The ways acquiring a scoped mount can fail.
#[derive(Debug, PartialEq)]
pub enum MountError {
    /// The temporary directory for the mountpoint could not be created.
    TempdirCreationError,
    /// The mount command could not be launched.
    CommandLaunchFailed,
    /// The mount command exited unsuccessfully, with this exit code (`None`
    /// when a signal ended it).
    CommandFailed(Option<i32>),
}

/// A source mounted onto a temporary mountpoint directory it owns.
pub struct Mount {
    source: String,
    mountpoint: String,
}

impl Mount {
    /// The path of the mounted source.
    pub closed spec fn spec_source(self) -> Seq<char> {
        self.source@
    }

    /// The directory the source is mounted on.
    pub closed spec fn spec_mountpoint(self) -> Seq<char> {
        self.mountpoint@
    }

    /// Records a mount of `source` that the front end has successfully made
    /// onto `mountpoint`; the new value owns the mountpoint.
    pub fn new(source: String, mountpoint: String) -> (m: Mount)
        ensures
            m.spec_source() == source@,
            m.spec_mountpoint() == mountpoint@,
    {
        Mount { source, mountpoint }
    }

    /// The mountpoint owned by this mount.
    pub fn path(&self) -> (r: &str)
        ensures
            r@ == self.spec_mountpoint(),
    {
        self.mountpoint.as_str()
    }
}

/// The read-only mount command for a source and a mountpoint:
/// `mount -r <source> <mountpoint>`.
pub fn mount_invocation(source: &str, mountpoint: &str) -> (r: Invocation)
    ensures
        r.executable@ == "mount"@,
        views_of(r.args@) == seq!["-r"@, source@, mountpoint@],
{
    let mut args: Vec<String> = Vec::new();
    args.push("-r".to_owned());
    args.push(source.to_owned());
    args.push(mountpoint.to_owned());
    proof {
        assert(views_of(args@) =~= seq!["-r"@, source@, mountpoint@]);
    }
    Invocation { executable: "mount".to_owned(), args }
}

/// The unmount command for a mountpoint: `umount <mountpoint>`.
pub fn umount_invocation(mountpoint: &str) -> (r: Invocation)
    ensures
        r.executable@ == "umount"@,
        views_of(r.args@) == seq![mountpoint@],
{
    let mut args: Vec<String> = Vec::new();
    args.push(mountpoint.to_owned());
    proof {
        assert(views_of(args@) =~= seq![mountpoint@]);
    }
    Invocation { executable: "umount".to_owned(), args }
}

/// How far an acquisition attempt got: the temporary directory could not be
/// created, the mount command could not be launched, or the mount command
/// ran and exited.
pub enum MountAttempt {
    TempdirFailed,
    LaunchFailed,
    Exited { success: bool, code: Option<i32> },
}

/// What an acquisition attempt means: the step's result, and whether the
/// temporary directory must be removed again.
///
/// The mount is acquired exactly when the mount command ran and succeeded.
/// Whenever the directory was created but the mount failed, the directory
/// must be removed: a failed acquisition leaves no temporary directory
/// behind. On success the directory stays; the mount now owns it.
pub fn acquire_outcome(attempt: MountAttempt) -> (r: (Result<(), MountError>, bool))
    ensures
        attempt is TempdirFailed ==> r == (
            Err::<(), MountError>(MountError::TempdirCreationError),
            false,
        ),
        attempt is LaunchFailed ==> r == (Err::<(), MountError>(MountError::CommandLaunchFailed), true),
        attempt matches MountAttempt::Exited { success: false, code } ==> r == (
            Err::<(), MountError>(MountError::CommandFailed(code)),
            true,
        ),
        attempt matches MountAttempt::Exited { success: true, .. } ==> r == (
            Ok::<(), MountError>(()),
            false,
        ),
        !(attempt is TempdirFailed) && r.0 is Err ==> r.1,
        r.0 is Ok <==> attempt matches MountAttempt::Exited { success: true, .. },
{
    match attempt {
        MountAttempt::TempdirFailed => (Err(MountError::TempdirCreationError), false),
        MountAttempt::LaunchFailed => (Err(MountError::CommandLaunchFailed), true),
        MountAttempt::Exited { success, code } => {
            if success {
                (Ok(()), false)
            } else {
                (Err(MountError::CommandFailed(code)), true)
            }
        },
    }
}

/// Whether releasing a mount may remove its mountpoint directory: only when
/// the unmount command was launched and succeeded. Release reports nothing
/// else — its own failures are swallowed, since it typically runs while
/// unwinding from an earlier error.
pub fn release_outcome(umount_launched: bool, umount_success: bool) -> (remove_dir: bool)
    ensures
        remove_dir == (umount_launched && umount_success),
{
    umount_launched && umount_success
}

} // verus!
