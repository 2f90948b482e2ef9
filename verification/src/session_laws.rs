//! What holds of every attempt, whatever the caller reports.

use vstd::prelude::*;
use crate::error::ChrootError;
use crate::identity::{IdentitySpec, ResolvedIdentity};
use crate::pivot::{law_pivot_failure_kinds, law_pivot_moves_forward, pivot_rank, PivotAction};
use crate::privilege::{DropAction, DropState};
use crate::request::request_for;
use crate::rootfs::is_absolute;
use crate::session::{nobody, Action, EventView, SessionView, Stage, Strategy};

verus! {

/// Whether an operation changes the filesystem, the mounts or the process:
/// everything but the questions that are asked before the root is entered
/// and the inspections of the manual switch.
pub open spec fn is_mutating(action: Action) -> bool {
    match action {
        Action::CheckPrivilege
        | Action::InspectRoot
        | Action::Canonicalize
        | Action::ResolveIdentity
        | Action::Report(_) => false,
        Action::Pivot(step) => step != PivotAction::InspectTarget && step
            != PivotAction::InspectHolder && step != PivotAction::ProbeDevices,
        Action::Delegate | Action::Drop(_) | Action::Launch => true,
    }
}

/// The position of a stage in the order of an attempt. A failed attempt
/// stands where it failed.
pub open spec fn progress(stage: Stage) -> nat {
    match stage {
        Stage::CheckingPrivilege => 0,
        Stage::InspectingRoot => 1,
        Stage::Canonicalizing => 2,
        Stage::ResolvingIdentity => 3,
        Stage::Delegating => 4,
        Stage::Switching(step) => 4 + pivot_rank(step),
        Stage::Dropping(DropState::SettingGroup) => 13,
        Stage::Dropping(DropState::SettingUser) => 14,
        Stage::Launching => 15,
        Stage::Failed(failure) => action_progress(failure.during),
    }
}

/// The position of the stage in which `action` is due.
pub open spec fn action_progress(action: Action) -> nat {
    match action {
        Action::CheckPrivilege => 0,
        Action::InspectRoot => 1,
        Action::Canonicalize => 2,
        Action::ResolveIdentity => 3,
        Action::Delegate => 4,
        Action::Pivot(PivotAction::InspectTarget) => 4,
        Action::Pivot(PivotAction::InspectHolder) => 5,
        Action::Pivot(PivotAction::CreateHolder) => 6,
        Action::Pivot(PivotAction::ProbeDevices) => 7,
        Action::Pivot(PivotAction::BindTarget) => 8,
        Action::Pivot(PivotAction::EnterTarget) => 9,
        Action::Pivot(PivotAction::PivotRoot) => 10,
        Action::Pivot(PivotAction::EnterNewRoot) => 11,
        Action::Pivot(PivotAction::UnmountOldRoot) => 12,
        Action::Drop(DropAction::SetGroupId(_)) => 13,
        Action::Drop(DropAction::SetUserId(_)) => 14,
        Action::Launch => 15,
        Action::Report(_) => 16,
    }
}

/// What every session that an attempt can reach satisfies.
pub open spec fn reachable_shape(session: SessionView) -> bool {
    &&& session.root matches Some(root) ==> is_absolute(root)
    &&& progress(session.stage) >= 3 ==> session.root is Some
    &&& session.stage matches Stage::Failed(failure) ==> !(failure.during is Report)
    &&& progress(session.stage) >= 4 && !(session.stage is Failed) ==> {
        &&& session.command.len() > 0
        &&& session.root matches Some(root) && session.request == Some(
            request_for(root, session.identity, session.command),
        )
    }
    &&& session.request matches Some(request) ==> request.well_formed() && request.identity
        == session.identity
    &&& session.stage is Delegating ==> session.strategy == Strategy::NamespaceDelegated
    &&& session.stage is Switching || session.stage is Dropping || session.stage is Launching
        ==> session.strategy == Strategy::ManualPivot
    &&& session.stage is ResolvingIdentity ==> session.userspec is Some
    &&& session.userspec is None && !(session.stage is Failed) ==> session.identity == nobody()
}

/// The session after a run of events.
pub open spec fn run(session: SessionView, events: Seq<EventView>) -> SessionView
    decreases events.len(),
{
    if events.len() == 0 {
        session
    } else {
        run(session.advance(events[0]), events.drop_first())
    }
}

/// A session that has just begun is of the shape that every step keeps.
pub proof fn law_start_is_well_shaped(
    strategy: Strategy,
    new_root: Seq<char>,
    userspec: Option<IdentitySpec>,
    command: Seq<Seq<char>>,
)
    ensures
        reachable_shape(SessionView::start(strategy, new_root, userspec, command)),
        SessionView::start(strategy, new_root, userspec, command).pending()
            == Action::CheckPrivilege,
{
}

/// Every step keeps the shape, keeps what the caller asked for, and never
/// takes the attempt backwards.
pub proof fn law_step_keeps_shape(session: SessionView, event: EventView)
    requires
        reachable_shape(session),
    ensures
        reachable_shape(session.advance(event)),
        session.advance(event).strategy == session.strategy,
        session.advance(event).new_root == session.new_root,
        session.advance(event).userspec == session.userspec,
        session.advance(event).command == session.command,
        progress(session.advance(event).stage) >= progress(session.stage),
        session.stage is Failed ==> session.advance(event) == session,
{
    crate::request::lemma_no_user_namespace();
    match session.stage {
        Stage::Switching(step) => {
            match crate::session::pivot_event(event) {
                Some(report) => {
                    law_pivot_moves_forward(step, report);
                    law_pivot_failure_kinds(step, report);
                },
                None => {},
            }
        },
        _ => {},
    }
}

/// A step fails the attempt only with the operation that was due when it
/// failed, and each kind of failure has its place: a missing privilege is
/// found by the privilege check, an unknown identity by the identity
/// resolution, an empty command before any operation of a strategy, a
/// refused identity change while dropping privileges, and a failed launch
/// by the delegate or the launch itself.
pub proof fn law_failure_origins(session: SessionView, event: EventView)
    requires
        !(session.stage is Failed),
    ensures
        session.advance(event).stage matches Stage::Failed(failure) ==> {
            &&& failure.during == session.pending()
            &&& failure.error != ChrootError::UnmountFailed
            &&& failure.error == ChrootError::PermissionDenied <==> session.stage
                == Stage::CheckingPrivilege
            &&& failure.error is IdentityNotFound ==> session.stage == Stage::ResolvingIdentity
            &&& failure.error == ChrootError::EmptyCommand ==> progress(session.stage) <= 3
            &&& failure.error is PrivilegeDropFailed <==> session.stage is Dropping
            &&& failure.error == ChrootError::ExecFailed <==> session.stage == Stage::Delegating
                || session.stage == Stage::Launching
            &&& failure.error == ChrootError::MountFailed || failure.error
                == ChrootError::PivotFailed ==> session.stage is Switching
        },
{
    match session.stage {
        Stage::Switching(step) => {
            match crate::session::pivot_event(event) {
                Some(report) => {
                    law_pivot_failure_kinds(step, report);
                },
                None => {},
            }
        },
        _ => {},
    }
}

/// An operation that changes anything is due only once the privilege
/// check, the validation of the root and the identity resolution are
/// behind.
pub proof fn law_mutation_comes_late(session: SessionView)
    ensures
        is_mutating(session.pending()) ==> progress(session.stage) >= 4,
        is_mutating(session.pending()) ==> !(session.stage is Failed),
{
}

/// Whenever an operation of a strategy is due, the request is assembled:
/// it is the request for the validated root, the settled identity and the
/// caller's command, its root is absolute and it asks for no user
/// namespace.
pub proof fn law_strategies_work_from_the_request(session: SessionView)
    requires
        reachable_shape(session),
        session.pending() is Delegate || session.pending() is Pivot || session.pending() is Drop
            || session.pending() is Launch,
    ensures
        session.command.len() > 0,
        session.root is Some,
        session.request == Some(
            request_for(session.root->0, session.identity, session.command),
        ),
        session.request->0.well_formed(),
        session.request->0.executable == session.command[0],
        session.request->0.arguments == session.command.skip(1),
{
}

/// Along a run the attempt only moves forward, and the shape is kept.
pub proof fn law_run_moves_forward(session: SessionView, events: Seq<EventView>, cut: int)
    requires
        reachable_shape(session),
        0 <= cut <= events.len(),
    ensures
        reachable_shape(run(session, events)),
        reachable_shape(run(session, events.take(cut))),
        progress(run(session, events.take(cut)).stage) <= progress(run(session, events).stage),
        progress(session.stage) <= progress(run(session, events.take(cut)).stage),
    decreases events.len(),
{
    if events.len() == 0 {
        assert(events.take(cut) =~= events);
    } else {
        law_step_keeps_shape(session, events[0]);
        if cut == 0 {
            assert(events.take(0).len() == 0);
            law_run_moves_forward(session.advance(events[0]), events.drop_first(), 0);
            assert(events.drop_first().take(0).len() == 0);
        } else {
            assert(events.take(cut).drop_first() =~= events.drop_first().take(cut - 1));
            assert(events.take(cut)[0] == events[0]);
            law_run_moves_forward(session.advance(events[0]), events.drop_first(), cut - 1);
        }
    }
}

/// A caller who is not root gets `PermissionDenied`, and at no point of
/// the attempt, however it goes on reporting, is anything but the privilege
/// check or the report of that failure due: no mount, no pivot, no identity
/// lookup.
pub proof fn law_unprivileged_caller_is_stopped(
    strategy: Strategy,
    new_root: Seq<char>,
    userspec: Option<IdentitySpec>,
    command: Seq<Seq<char>>,
    later: Seq<EventView>,
)
    ensures
        ({
            let denied = SessionView::start(strategy, new_root, userspec, command).advance(
                EventView::Privilege { is_root: false },
            );
            &&& denied.pending() == Action::Report(ChrootError::PermissionDenied)
            &&& run(denied, later) == denied
        }),
    decreases later.len(),
{
    if later.len() > 0 {
        law_unprivileged_caller_is_stopped(
            strategy,
            new_root,
            userspec,
            command,
            later.drop_first(),
        );
    }
}

/// Until the caller has reported that it is root, nothing but the
/// privilege check is ever due.
pub proof fn law_privilege_comes_first(
    strategy: Strategy,
    new_root: Seq<char>,
    userspec: Option<IdentitySpec>,
    command: Seq<Seq<char>>,
    events: Seq<EventView>,
)
    requires
        forall|i: int|
            0 <= i < events.len() ==> #[trigger] events[i] != (EventView::Privilege {
                is_root: true,
            }),
    ensures
        ({
            let end = run(SessionView::start(strategy, new_root, userspec, command), events);
            end.pending() == Action::CheckPrivilege || end.pending() == Action::Report(
                ChrootError::PermissionDenied,
            )
        }),
{
    let start = SessionView::start(strategy, new_root, userspec, command);
    lemma_stuck_without_privilege(start, events);
}

/// In an attempt that ends on a missing privilege, an invalid root found
/// by the validator, an unknown identity or an empty command, no operation
/// that changes anything was due at any point.
pub proof fn law_early_failure_changes_nothing(
    strategy: Strategy,
    new_root: Seq<char>,
    userspec: Option<IdentitySpec>,
    command: Seq<Seq<char>>,
    events: Seq<EventView>,
    cut: int,
)
    requires
        0 <= cut <= events.len(),
        run(SessionView::start(strategy, new_root, userspec, command), events).stage matches Stage::Failed(
            failure,
        ) && (failure.error == ChrootError::PermissionDenied || failure.error
            is IdentityNotFound || failure.error == ChrootError::EmptyCommand || (failure.error
            == ChrootError::InvalidRoot && failure.during != Action::Pivot(
            PivotAction::InspectTarget,
        ))),
    ensures
        !is_mutating(
            run(SessionView::start(strategy, new_root, userspec, command), events.take(cut)).pending(),
        ),
{
    let start = SessionView::start(strategy, new_root, userspec, command);
    let end = run(start, events);
    let mid = run(start, events.take(cut));
    law_start_is_well_shaped(strategy, new_root, userspec, command);
    law_run_moves_forward(start, events, cut);
    lemma_run_failure_origins(start, events);
    law_mutation_comes_late(mid);
}

/// With no identity specified, the command runs as "nobody".
pub proof fn law_default_identity_is_nobody(
    strategy: Strategy,
    new_root: Seq<char>,
    command: Seq<Seq<char>>,
    events: Seq<EventView>,
)
    ensures
        run(SessionView::start(strategy, new_root, None, command), events).request matches Some(
            request,
        ) ==> request.identity == (ResolvedIdentity { uid: 65534, gid: 65534 }),
    decreases events.len(),
{
    let start = SessionView::start(strategy, new_root, None, command);
    lemma_nobody_is_kept(start, events);
}

proof fn lemma_nobody_is_kept(session: SessionView, events: Seq<EventView>)
    requires
        session.userspec is None,
        session.identity == nobody(),
        session.request matches Some(request) ==> request.identity == nobody(),
        session.stage != Stage::ResolvingIdentity,
    ensures
        run(session, events).request matches Some(request) ==> request.identity == nobody(),
    decreases events.len(),
{
    if events.len() > 0 {
        lemma_nobody_is_kept(session.advance(events[0]), events.drop_first());
    }
}

proof fn lemma_stuck_without_privilege(session: SessionView, events: Seq<EventView>)
    requires
        session.stage == Stage::CheckingPrivilege || (session.stage matches Stage::Failed(f)
            && f.error == ChrootError::PermissionDenied),
        forall|i: int|
            0 <= i < events.len() ==> #[trigger] events[i] != (EventView::Privilege {
                is_root: true,
            }),
    ensures
        run(session, events).pending() == Action::CheckPrivilege || run(
            session,
            events,
        ).pending() == Action::Report(ChrootError::PermissionDenied),
    decreases events.len(),
{
    if events.len() > 0 {
        let rest = events.drop_first();
        assert forall|i: int| 0 <= i < rest.len() implies #[trigger] rest[i] != (
        EventView::Privilege { is_root: true }) by {
            assert(rest[i] == events[i + 1]);
        }
        assert(events[0] != (EventView::Privilege { is_root: true }));
        lemma_stuck_without_privilege(session.advance(events[0]), rest);
    }
}

/// A session is failed only in ways that `law_failure_origins` allows.
spec fn failure_is_placed(session: SessionView) -> bool {
    session.stage matches Stage::Failed(failure) ==> {
        &&& failure.error == ChrootError::PermissionDenied ==> failure.during
            == Action::CheckPrivilege
        &&& failure.error is IdentityNotFound ==> failure.during == Action::ResolveIdentity
        &&& failure.error == ChrootError::EmptyCommand ==> action_progress(failure.during) <= 3
        &&& failure.error == ChrootError::InvalidRoot ==> action_progress(failure.during) <= 3
            || failure.during == Action::Pivot(PivotAction::InspectTarget)
    }
}

proof fn lemma_run_failure_origins(session: SessionView, events: Seq<EventView>)
    requires
        reachable_shape(session),
        failure_is_placed(session),
    ensures
        failure_is_placed(run(session, events)),
    decreases events.len(),
{
    if events.len() > 0 {
        law_step_keeps_shape(session, events[0]);
        if !(session.stage is Failed) {
            law_failure_origins(session, events[0]);
            match session.stage {
                Stage::Switching(step) => {
                    match crate::session::pivot_event(events[0]) {
                        Some(report) => {
                            law_pivot_failure_kinds(step, report);
                        },
                        None => {},
                    }
                },
                _ => {},
            }
        }
        lemma_run_failure_origins(session.advance(events[0]), events.drop_first());
    }
}

} // verus!
