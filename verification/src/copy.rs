//! Decisions of the recursive tree copy that moves the mounted source's
//! contents onto the mounted destination.
//!
//! The front end walks the directory entries and performs the file
//! operations; this module decides, per entry, what is to be done, including
//! the fallback when the destination filesystem rejects symlink creation.

use vstd::prelude::*;

verus! {

/// What kind of entry the walk is looking at.
#[derive(Clone, Copy, Debug, PartialEq, Eq, Structural)]
pub enum EntryKind {
    File,
    Directory,
    Symlink,
    /// Anything else (sockets, devices, ...).
    Other,
}

/// What the tree copy does with one entry.
#[derive(Clone, Copy, Debug, PartialEq, Eq, Structural)]
pub enum TreeAction {
    /// Copy the entry's bytes to the destination path.
    CopyFile,
    /// Make sure the destination directory exists — creating it exactly when
    /// it does not yet — and recurse into the pair of directories.
    Descend { create_dir: bool },
    /// Recreate the symlink, pointing at the original's target, at the
    /// destination path.
    ReplicateSymlink,
    /// Leave the entry out of the copy.
    Skip,
}

/// The tree copy's decision for one entry: files are copied, directories are
/// created as needed and descended into, symlinks are replicated, and
/// anything else is skipped.
pub fn entry_action(kind: EntryKind, dest_exists: bool) -> (r: TreeAction)
    ensures
        kind is File ==> r == TreeAction::CopyFile,
        kind is Directory ==> r == (TreeAction::Descend { create_dir: !dest_exists }),
        kind is Symlink ==> r == TreeAction::ReplicateSymlink,
        kind is Other ==> r == TreeAction::Skip,
{
    match kind {
        EntryKind::File => TreeAction::CopyFile,
        EntryKind::Directory => TreeAction::Descend { create_dir: !dest_exists },
        EntryKind::Symlink => TreeAction::ReplicateSymlink,
        EntryKind::Other => TreeAction::Skip,
    }
}

/// What to do when recreating a symlink failed: a permission error means the
/// destination filesystem rejects symlinks, and the link's followed target
/// is copied instead — as a file, or as a directory to descend into. Any
/// other error is fatal (`None`: the front end propagates it).
pub fn symlink_fallback(permission_denied: bool, target_is_file: bool, dest_exists: bool) -> (r:
    Option<TreeAction>)
    ensures
        !permission_denied ==> r is None,
        permission_denied && target_is_file ==> r == Some(TreeAction::CopyFile),
        permission_denied && !target_is_file ==> r == Some(
            TreeAction::Descend { create_dir: !dest_exists },
        ),
{
    if !permission_denied {
        None
    } else if target_is_file {
        Some(TreeAction::CopyFile)
    } else {
        Some(TreeAction::Descend { create_dir: !dest_exists })
    }
}

} // verus!
