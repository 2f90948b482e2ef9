//! The manual root switch, step by step.
//!
//! Where no namespace executor does the work, the root is switched by
//! hand: the target is checked, a holder directory for the previous root is
//! made inside it, the target is bound onto itself unless it is a mount
//! point already, and the root is pivoted. Each step is a named state. A
//! state says which operation is due, and the outcome of that operation
//! decides the next state, so that a failure stops the sequence before
//! anything further is attempted.

use vstd::prelude::*;
use crate::error::ChrootError;
use crate::mount_probe::{is_mount_point, mount_boundary};

verus! {

/// The directory inside the target that receives the previous root.
pub const OLD_ROOT_HOLDER: &'static str = ".old_root";

/// A step of the switch that is still to be taken.
#[derive(Debug, Clone, Copy, PartialEq, Eq, Structural)]
pub enum PivotState {
    /// The target must be a directory.
    ValidatingTarget,
    /// The holder may already be there.
    CheckingHolder,
    /// The holder is being made.
    CreatingHolder,
    /// The devices of the target and of its parent are being compared.
    ProbingMount,
    /// The target is being bound onto itself.
    BindingRoot,
    /// The working directory is being moved into the target.
    EnteringTarget,
    /// The root is being pivoted.
    Pivoting,
    /// The working directory is being moved to the new root.
    EnteringNewRoot,
    /// The previous root is being unmounted from the holder.
    DetachingOldRoot,
}

/// The operation that a state waits for.
#[derive(Debug, Clone, Copy, PartialEq, Eq, Structural)]
pub enum PivotAction {
    /// Say whether the target exists and is a directory.
    InspectTarget,
    /// Say whether the holder exists.
    InspectHolder,
    /// Create the holder directory, and its parents.
    CreateHolder,
    /// Give the device ids of the target and of its parent.
    ProbeDevices,
    /// Bind-mount the target onto itself.
    BindTarget,
    /// Change the working directory to the target.
    EnterTarget,
    /// Pivot the root to `.`, with the holder receiving the previous root.
    PivotRoot,
    /// Change the working directory to `/`.
    EnterNewRoot,
    /// Unmount the holder.
    UnmountOldRoot,
}

/// What an operation reported.
#[derive(Debug, Clone, Copy, PartialEq, Eq, Structural)]
pub enum PivotEvent {
    /// The inspected path exists, or not, and is a directory, or not.
    Inspected { present: bool, is_dir: bool },
    /// The device the target resides on, and that of its parent directory
    /// where it has one.
    Devices { device: u64, parent_device: Option<u64> },
    /// The operation was carried out.
    Succeeded,
    /// The operation was refused.
    Failed,
}

/// Where the switch stands after an event.
#[derive(Debug, Clone, Copy, PartialEq, Eq, Structural)]
pub enum PivotOutcome {
    /// A step is still to be taken.
    Continue(PivotState),
    /// The root is switched. The previous root is detached, unless the
    /// final unmount failed: then it stays mounted under the holder, which
    /// is worth a warning and nothing more.
    Switched { old_root_detached: bool },
    /// The switch was given up.
    Failed(ChrootError),
}

/// The position of a state in the sequence.
pub open spec fn pivot_rank(state: PivotState) -> nat {
    match state {
        PivotState::ValidatingTarget => 0,
        PivotState::CheckingHolder => 1,
        PivotState::CreatingHolder => 2,
        PivotState::ProbingMount => 3,
        PivotState::BindingRoot => 4,
        PivotState::EnteringTarget => 5,
        PivotState::Pivoting => 6,
        PivotState::EnteringNewRoot => 7,
        PivotState::DetachingOldRoot => 8,
    }
}

/// The operation that is due in `state`.
pub open spec fn pivot_action(state: PivotState) -> PivotAction {
    match state {
        PivotState::ValidatingTarget => PivotAction::InspectTarget,
        PivotState::CheckingHolder => PivotAction::InspectHolder,
        PivotState::CreatingHolder => PivotAction::CreateHolder,
        PivotState::ProbingMount => PivotAction::ProbeDevices,
        PivotState::BindingRoot => PivotAction::BindTarget,
        PivotState::EnteringTarget => PivotAction::EnterTarget,
        PivotState::Pivoting => PivotAction::PivotRoot,
        PivotState::EnteringNewRoot => PivotAction::EnterNewRoot,
        PivotState::DetachingOldRoot => PivotAction::UnmountOldRoot,
    }
}

/// The kind under which a refusal in `state` is reported. A refused
/// unmount is reported as a warning only.
pub open spec fn pivot_failure(state: PivotState) -> ChrootError {
    match state {
        PivotState::ValidatingTarget => ChrootError::InvalidRoot,
        PivotState::CheckingHolder
        | PivotState::CreatingHolder
        | PivotState::ProbingMount
        | PivotState::BindingRoot => ChrootError::MountFailed,
        PivotState::EnteringTarget
        | PivotState::Pivoting
        | PivotState::EnteringNewRoot => ChrootError::PivotFailed,
        PivotState::DetachingOldRoot => ChrootError::UnmountFailed,
    }
}

/// What a probe found: whether the target is a mount point, where the
/// event is the report of a probe.
pub open spec fn probe_result(event: PivotEvent) -> Option<bool> {
    match event {
        PivotEvent::Devices { device, parent_device } => Some(mount_boundary(device, parent_device)),
        _ => None,
    }
}

/// Whether `event` is a report that the operation of `state` can give.
pub open spec fn pivot_answers(state: PivotState, event: PivotEvent) -> bool {
    match state {
        PivotState::ValidatingTarget | PivotState::CheckingHolder => event is Inspected
            || event is Failed,
        PivotState::ProbingMount => event is Devices || event is Failed,
        _ => event is Succeeded || event is Failed,
    }
}

/// The transition function of the switch.
///
/// An event that is no report of the state's operation changes nothing.
pub open spec fn pivot_next(state: PivotState, event: PivotEvent) -> PivotOutcome {
    match (state, event) {
        (PivotState::ValidatingTarget, PivotEvent::Inspected { present, is_dir }) => if present
            && is_dir {
            PivotOutcome::Continue(PivotState::CheckingHolder)
        } else {
            PivotOutcome::Failed(ChrootError::InvalidRoot)
        },
        (PivotState::ValidatingTarget, PivotEvent::Failed) => PivotOutcome::Failed(
            ChrootError::InvalidRoot,
        ),
        (PivotState::CheckingHolder, PivotEvent::Inspected { present, is_dir }) => if present {
            PivotOutcome::Continue(PivotState::ProbingMount)
        } else {
            PivotOutcome::Continue(PivotState::CreatingHolder)
        },
        (PivotState::CheckingHolder, PivotEvent::Failed) => PivotOutcome::Continue(
            PivotState::CreatingHolder,
        ),
        (PivotState::CreatingHolder, PivotEvent::Succeeded) => PivotOutcome::Continue(
            PivotState::ProbingMount,
        ),
        (PivotState::CreatingHolder, PivotEvent::Failed) => PivotOutcome::Failed(
            ChrootError::MountFailed,
        ),
        (PivotState::ProbingMount, PivotEvent::Devices { device, parent_device }) => if mount_boundary(
            device,
            parent_device,
        ) {
            PivotOutcome::Continue(PivotState::EnteringTarget)
        } else {
            PivotOutcome::Continue(PivotState::BindingRoot)
        },
        (PivotState::ProbingMount, PivotEvent::Failed) => PivotOutcome::Failed(
            ChrootError::MountFailed,
        ),
        (PivotState::BindingRoot, PivotEvent::Succeeded) => PivotOutcome::Continue(
            PivotState::EnteringTarget,
        ),
        (PivotState::BindingRoot, PivotEvent::Failed) => PivotOutcome::Failed(
            ChrootError::MountFailed,
        ),
        (PivotState::EnteringTarget, PivotEvent::Succeeded) => PivotOutcome::Continue(
            PivotState::Pivoting,
        ),
        (PivotState::EnteringTarget, PivotEvent::Failed) => PivotOutcome::Failed(
            ChrootError::PivotFailed,
        ),
        (PivotState::Pivoting, PivotEvent::Succeeded) => PivotOutcome::Continue(
            PivotState::EnteringNewRoot,
        ),
        (PivotState::Pivoting, PivotEvent::Failed) => PivotOutcome::Failed(
            ChrootError::PivotFailed,
        ),
        (PivotState::EnteringNewRoot, PivotEvent::Succeeded) => PivotOutcome::Continue(
            PivotState::DetachingOldRoot,
        ),
        (PivotState::EnteringNewRoot, PivotEvent::Failed) => PivotOutcome::Failed(
            ChrootError::PivotFailed,
        ),
        (PivotState::DetachingOldRoot, PivotEvent::Succeeded) => PivotOutcome::Switched {
            old_root_detached: true,
        },
        (PivotState::DetachingOldRoot, PivotEvent::Failed) => PivotOutcome::Switched {
            old_root_detached: false,
        },
        _ => PivotOutcome::Continue(state),
    }
}

/// The state in which every switch begins.
pub fn pivot_start() -> (state: PivotState)
    ensures
        state == PivotState::ValidatingTarget,
{
    PivotState::ValidatingTarget
}

/// The operation that is due in `state`.
pub fn pivot_pending(state: PivotState) -> (action: PivotAction)
    ensures
        action == pivot_action(state),
{
    match state {
        PivotState::ValidatingTarget => PivotAction::InspectTarget,
        PivotState::CheckingHolder => PivotAction::InspectHolder,
        PivotState::CreatingHolder => PivotAction::CreateHolder,
        PivotState::ProbingMount => PivotAction::ProbeDevices,
        PivotState::BindingRoot => PivotAction::BindTarget,
        PivotState::EnteringTarget => PivotAction::EnterTarget,
        PivotState::Pivoting => PivotAction::PivotRoot,
        PivotState::EnteringNewRoot => PivotAction::EnterNewRoot,
        PivotState::DetachingOldRoot => PivotAction::UnmountOldRoot,
    }
}

/// Takes the switch from `state` to where `event` leads.
pub fn pivot_advance(state: PivotState, event: PivotEvent) -> (outcome: PivotOutcome)
    ensures
        outcome == pivot_next(state, event),
{
    match state {
        PivotState::ValidatingTarget => match event {
            PivotEvent::Inspected { present, is_dir } => {
                if present && is_dir {
                    PivotOutcome::Continue(PivotState::CheckingHolder)
                } else {
                    PivotOutcome::Failed(ChrootError::InvalidRoot)
                }
            },
            PivotEvent::Failed => PivotOutcome::Failed(ChrootError::InvalidRoot),
            _ => PivotOutcome::Continue(state),
        },
        PivotState::CheckingHolder => match event {
            PivotEvent::Inspected { present, is_dir: _ } => {
                if present {
                    PivotOutcome::Continue(PivotState::ProbingMount)
                } else {
                    PivotOutcome::Continue(PivotState::CreatingHolder)
                }
            },
            PivotEvent::Failed => PivotOutcome::Continue(PivotState::CreatingHolder),
            _ => PivotOutcome::Continue(state),
        },
        PivotState::ProbingMount => match event {
            PivotEvent::Devices { device, parent_device } => {
                if is_mount_point(device, parent_device) {
                    PivotOutcome::Continue(PivotState::EnteringTarget)
                } else {
                    PivotOutcome::Continue(PivotState::BindingRoot)
                }
            },
            PivotEvent::Failed => PivotOutcome::Failed(ChrootError::MountFailed),
            _ => PivotOutcome::Continue(state),
        },
        PivotState::CreatingHolder => match event {
            PivotEvent::Succeeded => PivotOutcome::Continue(PivotState::ProbingMount),
            PivotEvent::Failed => PivotOutcome::Failed(ChrootError::MountFailed),
            _ => PivotOutcome::Continue(state),
        },
        PivotState::BindingRoot => match event {
            PivotEvent::Succeeded => PivotOutcome::Continue(PivotState::EnteringTarget),
            PivotEvent::Failed => PivotOutcome::Failed(ChrootError::MountFailed),
            _ => PivotOutcome::Continue(state),
        },
        PivotState::EnteringTarget => match event {
            PivotEvent::Succeeded => PivotOutcome::Continue(PivotState::Pivoting),
            PivotEvent::Failed => PivotOutcome::Failed(ChrootError::PivotFailed),
            _ => PivotOutcome::Continue(state),
        },
        PivotState::Pivoting => match event {
            PivotEvent::Succeeded => PivotOutcome::Continue(PivotState::EnteringNewRoot),
            PivotEvent::Failed => PivotOutcome::Failed(ChrootError::PivotFailed),
            _ => PivotOutcome::Continue(state),
        },
        PivotState::EnteringNewRoot => match event {
            PivotEvent::Succeeded => PivotOutcome::Continue(PivotState::DetachingOldRoot),
            PivotEvent::Failed => PivotOutcome::Failed(ChrootError::PivotFailed),
            _ => PivotOutcome::Continue(state),
        },
        PivotState::DetachingOldRoot => match event {
            PivotEvent::Succeeded => PivotOutcome::Switched { old_root_detached: true },
            PivotEvent::Failed => PivotOutcome::Switched { old_root_detached: false },
            _ => PivotOutcome::Continue(state),
        },
    }
}

/// The state after a run of events, or the outcome that ended the run.
pub open spec fn pivot_run(state: PivotState, events: Seq<PivotEvent>) -> PivotOutcome
    decreases events.len(),
{
    if events.len() == 0 {
        PivotOutcome::Continue(state)
    } else {
        match pivot_next(state, events[0]) {
            PivotOutcome::Continue(next) => pivot_run(next, events.drop_first()),
            ended => ended,
        }
    }
}

/// Whether the root has been pivoted by the time the switch is in `state`.
pub open spec fn root_is_switched(state: PivotState) -> bool {
    pivot_rank(state) > pivot_rank(PivotState::Pivoting)
}

/// No event takes the switch backwards: a state is kept or left for a
/// later one.
pub proof fn law_pivot_moves_forward(state: PivotState, event: PivotEvent)
    ensures
        pivot_next(state, event) matches PivotOutcome::Continue(next) ==> {
            &&& pivot_rank(next) >= pivot_rank(state)
            &&& next == state <==> !pivot_answers(state, event)
        },
        !pivot_answers(state, event) ==> pivot_next(state, event) == PivotOutcome::Continue(state),
{
}

/// A switch is given up only on a refusal, under the kind of the state in
/// which it stood, and never once the root has been pivoted and the new
/// root entered: a refused unmount still counts as switched.
pub proof fn law_pivot_failure_kinds(state: PivotState, event: PivotEvent)
    ensures
        pivot_next(state, event) matches PivotOutcome::Failed(e) ==> {
            &&& e == pivot_failure(state)
            &&& state != PivotState::DetachingOldRoot
            &&& (e == ChrootError::InvalidRoot || e == ChrootError::MountFailed || e
                == ChrootError::PivotFailed)
            &&& (event is Failed || (state == PivotState::ValidatingTarget && event is Inspected))
        },
        pivot_next(state, event) is Switched <==> state == PivotState::DetachingOldRoot && (event
            is Succeeded || event is Failed),
        pivot_next(state, event) matches PivotOutcome::Switched { old_root_detached } ==> (
        old_root_detached <==> event is Succeeded),
{
}

/// The working directory is moved into the target, and the root pivoted
/// after it, only once the target is known to be a mount point: the probe
/// found a boundary, or the bind onto itself succeeded.
pub proof fn law_pivot_needs_mount_point(state: PivotState, event: PivotEvent)
    requires
        state != PivotState::EnteringTarget,
        pivot_next(state, event) == PivotOutcome::Continue(PivotState::EnteringTarget),
    ensures
        (state == PivotState::ProbingMount && probe_result(event) == Some(true)) || (state
            == PivotState::BindingRoot && event is Succeeded),
{
}

/// The target is bound onto itself only where the probe found that it is
/// not a mount point yet.
pub proof fn law_bind_only_without_boundary(state: PivotState, event: PivotEvent)
    requires
        state != PivotState::BindingRoot,
        pivot_next(state, event) == PivotOutcome::Continue(PivotState::BindingRoot),
    ensures
        state == PivotState::ProbingMount,
        probe_result(event) == Some(false),
{
}

/// Whatever the events, a run that is given up was given up before the
/// root was pivoted or on the steps around the pivot itself, and a run
/// only ever ends as switched from the last state.
pub proof fn law_pivot_run_outcomes(state: PivotState, events: Seq<PivotEvent>)
    ensures
        match pivot_run(state, events) {
            PivotOutcome::Continue(end) => pivot_rank(end) >= pivot_rank(state),
            PivotOutcome::Switched { .. } => true,
            PivotOutcome::Failed(e) => e == ChrootError::InvalidRoot || e
                == ChrootError::MountFailed || e == ChrootError::PivotFailed,
        },
        pivot_run(state, events) matches PivotOutcome::Failed(e) && (e == ChrootError::InvalidRoot
            || e == ChrootError::MountFailed) ==> !root_is_switched(state),
    decreases events.len(),
{
    if events.len() > 0 {
        law_pivot_moves_forward(state, events[0]);
        law_pivot_failure_kinds(state, events[0]);
        match pivot_next(state, events[0]) {
            PivotOutcome::Continue(next) => {
                law_pivot_run_outcomes(next, events.drop_first());
            },
            _ => {},
        }
    }
}

} // verus!
