//! A unified view of union and overlay filesystems: several read-only lower
//! directory trees, and optionally a writable upper tree, composed into one
//! mounted view by the kernel's overlay driver or by one of two user-space
//! programs.
//!
//! Handles decide and their callers act: every operation that touches the
//! system says what has to be asked of it and takes the outcome back.

pub mod error;
pub mod fs;
pub mod fuseoverlay;
pub mod number;
pub mod option;
pub mod overlay;
pub mod partition;
pub mod recover;
pub mod stack;
pub mod text;
pub mod unionfs_fuse;

pub use error::FsError;
pub use fs::Action;
pub use fs::CaseInsensitive;
pub use fs::Filesystem;
pub use fs::Launcher;
pub use fs::StackableFilesystem;
pub use fs::StateRecovery;
pub use fs::Step;
pub use fuseoverlay::opt::FuseOverlayFsOption;
pub use fuseoverlay::FuseOverlayFs;
pub use option::set_option_helper;
pub use option::FsOption;
pub use option::LinuxFilesystem;
pub use option::MountOption;
pub use overlay::opt::FsVerity;
pub use overlay::opt::OverlayFsOption;
pub use overlay::opt::RedirectDir;
pub use overlay::opt::Uuid;
pub use overlay::opt::Xino;
pub use overlay::OverlayFs;
pub use partition::PartitionID;
pub use recover::restore_fsdata;
pub use recover::FsData;
pub use recover::MountEntry;
pub use unionfs_fuse::opt::UnionFsFuseOption;
pub use unionfs_fuse::UnionFsFuse;
