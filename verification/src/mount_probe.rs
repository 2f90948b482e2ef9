//! Detection of mount boundaries by device id.

use vstd::prelude::*;

verus! {

/// Whether a path is a mount point, given the id of the device it resides
/// on and that of its parent directory's device.
///
/// A path on another device than its parent is one. So is a path without a
/// parent: the filesystem's root. One on its parent's device is none.
pub open spec fn mount_boundary(device: u64, parent_device: Option<u64>) -> bool {
    match parent_device {
        Some(parent) => parent != device,
        None => true,
    }
}

/// Decides whether a path is a mount point from the two device ids.
pub fn is_mount_point(device: u64, parent_device: Option<u64>) -> (boundary: bool)
    ensures
        boundary == mount_boundary(device, parent_device),
{
    match parent_device {
        Some(parent) => parent != device,
        None => true,
    }
}

} // verus!
