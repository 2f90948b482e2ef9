//! The ways in which entering a new root can fail.

use vstd::prelude::*;
use crate::identity::IdentityError;

verus! {

/// The kind of a failure. None is recovered from: each ends the attempt.
#[derive(Debug, Clone, Copy, PartialEq, Eq, Structural)]
pub enum ChrootError {
    /// The caller does not hold root privilege.
    PermissionDenied,
    /// The target path is missing or is no directory.
    InvalidRoot,
    /// A user or group does not resolve in the identity database.
    IdentityNotFound(IdentityError),
    /// The target could not be made a mount point.
    MountFailed,
    /// The root could not be switched to the target.
    PivotFailed,
    /// The previous root could not be detached. This one is a warning: the
    /// root has been switched by the time it can occur.
    UnmountFailed,
    /// The kernel refused the change to the group or user id held here.
    PrivilegeDropFailed(u32),
    /// The command names no executable.
    EmptyCommand,
    /// The target program could not be launched.
    ExecFailed,
}

} // verus!
