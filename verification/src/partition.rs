//! The identity of the filesystem that a path lies on.

use crate::error::FsError;
use vstd::prelude::*;

verus! {

/// Representation of a partition unique identifier: the device id of the
/// filesystem. Two paths lie on the same filesystem exactly when their
/// identifiers are equal.
#[derive(Debug, PartialEq, Eq, Clone, Copy, Hash, Structural)]
pub struct PartitionID(
    /// Partition dev id
    pub u64,
);

impl PartitionID {
    /// The identifier of the filesystem with the device id `dev`.
    pub fn new(dev: u64) -> (id: PartitionID)
        ensures
            id == PartitionID(dev),
    {
        PartitionID(dev)
    }

    /// The device id.
    pub fn device(&self) -> (dev: u64)
        ensures
            dev == self.0,
    {
        self.0
    }

    /// The identifier of the filesystem that a path lies on, from the device
    /// id that the system gave for it: `NotFound` where it gave none because
    /// the path does not exist.
    pub fn try_from(device: Option<u64>) -> (r: Result<PartitionID, FsError>)
        ensures
            r == match device {
                Some(dev) => Ok::<PartitionID, FsError>(PartitionID(dev)),
                None => Err::<PartitionID, FsError>(FsError::NotFound),
            },
    {
        match device {
            Some(dev) => Ok(PartitionID(dev)),
            None => Err(FsError::NotFound),
        }
    }

    /// Whether both identifiers name one filesystem.
    pub fn same(&self, other: &PartitionID) -> (b: bool)
        ensures
            b == (*self == *other),
    {
        self.0 == other.0
    }
}

} // verus!
