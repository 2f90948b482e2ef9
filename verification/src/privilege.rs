//! Dropping privileges: the group id first, then the user id.
//!
//! The order matters. A process that has given up its user id may no longer
//! change its group id, so the group is set while the process is still
//! privileged and the user after it.

use vstd::prelude::*;
use crate::error::ChrootError;
use crate::identity::ResolvedIdentity;

verus! {

/// A change of identity that is still to be made.
#[derive(Debug, Clone, Copy, PartialEq, Eq, Structural)]
pub enum DropState {
    /// The group id is being set.
    SettingGroup,
    /// The group id is set; the user id is being set.
    SettingUser,
}

/// The system call that a state waits for.
#[derive(Debug, Clone, Copy, PartialEq, Eq, Structural)]
pub enum DropAction {
    /// Set the process's group id to this.
    SetGroupId(u32),
    /// Set the process's user id to this.
    SetUserId(u32),
}

/// Where the drop stands after a system call returned.
#[derive(Debug, Clone, Copy, PartialEq, Eq, Structural)]
pub enum DropOutcome {
    /// A change is still to be made.
    Continue(DropState),
    /// Both ids are set.
    Dropped,
    /// The kernel refused a change.
    Failed(ChrootError),
}

/// The system call that is due in `state`, for `identity`.
pub open spec fn drop_action(identity: ResolvedIdentity, state: DropState) -> DropAction {
    match state {
        DropState::SettingGroup => DropAction::SetGroupId(identity.gid),
        DropState::SettingUser => DropAction::SetUserId(identity.uid),
    }
}

/// The transition function of the drop: a call that succeeded leads on, a
/// call that was refused ends the drop with the id that was refused.
pub open spec fn drop_next(identity: ResolvedIdentity, state: DropState, succeeded: bool) -> DropOutcome {
    match state {
        DropState::SettingGroup => if succeeded {
            DropOutcome::Continue(DropState::SettingUser)
        } else {
            DropOutcome::Failed(ChrootError::PrivilegeDropFailed(identity.gid))
        },
        DropState::SettingUser => if succeeded {
            DropOutcome::Dropped
        } else {
            DropOutcome::Failed(ChrootError::PrivilegeDropFailed(identity.uid))
        },
    }
}

/// The state in which every drop begins.
pub fn drop_start() -> (state: DropState)
    ensures
        state == DropState::SettingGroup,
{
    DropState::SettingGroup
}

/// The system call that is due in `state`, for `identity`.
pub fn drop_pending(identity: ResolvedIdentity, state: DropState) -> (action: DropAction)
    ensures
        action == drop_action(identity, state),
{
    match state {
        DropState::SettingGroup => DropAction::SetGroupId(identity.gid),
        DropState::SettingUser => DropAction::SetUserId(identity.uid),
    }
}

/// Takes the drop from `state` to where the outcome of its call leads.
pub fn drop_advance(identity: ResolvedIdentity, state: DropState, succeeded: bool) -> (outcome:
    DropOutcome)
    ensures
        outcome == drop_next(identity, state, succeeded),
{
    match state {
        DropState::SettingGroup => {
            if succeeded {
                DropOutcome::Continue(DropState::SettingUser)
            } else {
                DropOutcome::Failed(ChrootError::PrivilegeDropFailed(identity.gid))
            }
        },
        DropState::SettingUser => {
            if succeeded {
                DropOutcome::Dropped
            } else {
                DropOutcome::Failed(ChrootError::PrivilegeDropFailed(identity.uid))
            }
        },
    }
}

/// The user id is only ever set after the group id was set with success,
/// and the drop is complete only after both were.
pub proof fn law_group_before_user(identity: ResolvedIdentity, state: DropState, succeeded: bool)
    ensures
        drop_next(identity, state, succeeded) == DropOutcome::Continue(DropState::SettingUser)
            <==> state == DropState::SettingGroup && succeeded,
        drop_next(identity, state, succeeded) is Dropped <==> state == DropState::SettingUser
            && succeeded,
        drop_action(identity, DropState::SettingGroup) == DropAction::SetGroupId(identity.gid),
        drop_action(identity, DropState::SettingUser) == DropAction::SetUserId(identity.uid),
{
}

/// A refused change fails the drop with the id that was to be set.
pub proof fn law_refusal_names_the_id(identity: ResolvedIdentity, state: DropState)
    ensures
        drop_next(identity, state, false) == DropOutcome::Failed(
            ChrootError::PrivilegeDropFailed(
                match drop_action(identity, state) {
                    DropAction::SetGroupId(id) => id,
                    DropAction::SetUserId(id) => id,
                },
            ),
        ),
{
}

} // verus!
