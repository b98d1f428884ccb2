//! The ways in which an operation on a filesystem handle is refused or fails.

use vstd::prelude::*;

verus! {

/// Why an operation on a handle, or the making of one, did not succeed.
#[derive(Debug, Clone, Copy, PartialEq, Eq, Hash, Structural)]
pub enum FsError {
    /// A read-only stack was asked for with fewer than two lower layers.
    TooFewLayers,
    /// The upper and the work directory lie on different filesystems.
    CrossFilesystem,
    /// A path whose filesystem was asked for does not exist.
    NotFound,
    /// A work directory was given to a handle without an upper directory.
    UpperNotSet,
    /// An upper directory was given to a handle without a work directory.
    WorkNotSet,
    /// The target or a layer was to be changed while the handle is mounted.
    Mounted,
    /// The option cannot stand beside one that is active.
    IncompatibleOption,
    /// The token is no option of this backend.
    UnsupportedOption,
    /// The backend is not available on this system.
    Unavailable,
    /// The system refused to mount.
    MountFailed,
    /// The system refused to unmount.
    UnmountFailed,
    /// The target is mounted, but the filesystem that it now lies on could
    /// not be told.
    UnknownIdentity,
    /// The system shows no filesystem of this backend at the target.
    NotRecovered,
}

impl FsError {
    /// A sentence that says what went wrong.
    pub fn message(&self) -> (s: &'static str)
        ensures
            s@ == self.message_spec(),
    {
        match self {
            FsError::TooFewLayers => "a read-only stack needs at least two lower directories",
            FsError::CrossFilesystem =>
                "the upper and the work directory must be on one filesystem",
            FsError::NotFound => "path does not exist",
            FsError::UpperNotSet => "upper directory not set",
            FsError::WorkNotSet => "work directory not set",
            FsError::Mounted =>
                "layers and mount point cannot change while the filesystem is mounted",
            FsError::IncompatibleOption => "incompatible mount option combination",
            FsError::UnsupportedOption => "unsupported mount option",
            FsError::Unavailable => "filesystem backend is not available",
            FsError::MountFailed => "failed to mount",
            FsError::UnmountFailed => "failed to unmount",
            FsError::UnknownIdentity => "unable to tell the filesystem of the mount point",
            FsError::NotRecovered => "no such filesystem is mounted at the path",
        }
    }

    /// The sentence of each error.
    pub open spec fn message_spec(&self) -> Seq<char> {
        match self {
            FsError::TooFewLayers => "a read-only stack needs at least two lower directories"@,
            FsError::CrossFilesystem =>
                "the upper and the work directory must be on one filesystem"@,
            FsError::NotFound => "path does not exist"@,
            FsError::UpperNotSet => "upper directory not set"@,
            FsError::WorkNotSet => "work directory not set"@,
            FsError::Mounted =>
                "layers and mount point cannot change while the filesystem is mounted"@,
            FsError::IncompatibleOption => "incompatible mount option combination"@,
            FsError::UnsupportedOption => "unsupported mount option"@,
            FsError::Unavailable => "filesystem backend is not available"@,
            FsError::MountFailed => "failed to mount"@,
            FsError::UnmountFailed => "failed to unmount"@,
            FsError::UnknownIdentity => "unable to tell the filesystem of the mount point"@,
            FsError::NotRecovered => "no such filesystem is mounted at the path"@,
        }
    }
}

} // verus!
