use rizzybox::error::ChrootError;
use rizzybox::identity::{IdentityError, ResolvedIdentity};
use rizzybox::pivot::{
    pivot_advance, pivot_pending, pivot_start, PivotAction, PivotEvent, PivotOutcome, PivotState,
    OLD_ROOT_HOLDER,
};
use rizzybox::privilege::{
    drop_advance, drop_pending, drop_start, DropAction, DropOutcome, DropState,
};
use rizzybox::session::{Action, Event, Failure, Session, Stage, Strategy};
use rizzybox::{parse_colon_separated_pair, UserGroupPair};

fn session(strategy: Strategy, root: &str, userspec: Option<UserGroupPair>, command: &[&str]) -> Session {
    Session::new(
        strategy,
        root.to_string(),
        userspec,
        command.iter().map(|c| c.to_string()).collect(),
    )
}

fn failed(error: ChrootError, during: Action) -> Stage {
    Stage::Failed(Failure { error, during })
}

#[test]
fn a_root_without_identity_is_delegated_as_nobody() {
    let mut s = session(Strategy::NamespaceDelegated, "/srv/rootfs", None, &["/bin/sh"]);
    assert_eq!(s.pending(), Action::CheckPrivilege);
    s.advance(Event::Privilege { is_root: true });
    assert_eq!(s.pending(), Action::InspectRoot);
    s.advance(Event::Inspected { present: true, is_dir: true });
    assert_eq!(s.pending(), Action::Delegate);
    assert_eq!(s.stage(), Stage::Delegating);
    let request = s.request().as_ref().unwrap();
    assert_eq!(request.rootfs, "/srv/rootfs");
    assert_eq!(request.executable, "/bin/sh");
    assert!(request.arguments.is_empty());
    assert_eq!(request.identity, ResolvedIdentity { uid: 65534, gid: 65534 });
    assert_eq!(request.working_directory, "/");
    assert_eq!(s.identity(), ResolvedIdentity { uid: 65534, gid: 65534 });
    assert_eq!(s.warning(), None);
}

#[test]
fn a_numeric_identity_is_taken_verbatim() {
    let userspec = parse_colon_separated_pair("1000:1000").unwrap();
    assert_eq!(userspec.resolve_ids(), Ok((1000, 1000)));
    let mut s = session(Strategy::NamespaceDelegated, "/srv/rootfs", Some(userspec), &["/bin/sh", "-c", "id"]);
    s.advance(Event::Privilege { is_root: true });
    s.advance(Event::Inspected { present: true, is_dir: true });
    assert_eq!(s.pending(), Action::ResolveIdentity);
    let outcome = s.userspec().as_ref().unwrap().resolve_ids();
    s.advance(Event::Identity(outcome));
    assert_eq!(s.pending(), Action::Delegate);
    let request = s.request().as_ref().unwrap();
    assert_eq!(request.identity, ResolvedIdentity { uid: 1000, gid: 1000 });
    assert_eq!(request.arguments, vec!["-c", "id"]);
}

#[test]
fn an_unknown_user_fails_before_anything_is_changed() {
    let userspec = parse_colon_separated_pair("nonexistentuser").unwrap();
    for strategy in [Strategy::NamespaceDelegated, Strategy::ManualPivot] {
        let mut s = session(strategy, "/srv/rootfs", Some(userspec.clone()), &["/bin/sh"]);
        let mut seen = vec![s.pending()];
        s.advance(Event::Privilege { is_root: true });
        seen.push(s.pending());
        s.advance(Event::Inspected { present: true, is_dir: true });
        seen.push(s.pending());
        let outcome = s.userspec().as_ref().unwrap().resolve_ids();
        assert_eq!(outcome, Err(IdentityError::NoSuchUserName));
        s.advance(Event::Identity(outcome));
        assert_eq!(
            s.stage(),
            failed(
                ChrootError::IdentityNotFound(IdentityError::NoSuchUserName),
                Action::ResolveIdentity
            )
        );
        assert_eq!(
            s.pending(),
            Action::Report(ChrootError::IdentityNotFound(IdentityError::NoSuchUserName))
        );
        assert_eq!(seen, vec![Action::CheckPrivilege, Action::InspectRoot, Action::ResolveIdentity]);
        assert!(s.request().is_none());
    }
}

#[test]
fn an_unprivileged_caller_is_denied_and_nothing_else_is_due() {
    for strategy in [Strategy::NamespaceDelegated, Strategy::ManualPivot] {
        let mut s = session(strategy, "/srv/rootfs", None, &["/bin/sh"]);
        assert_eq!(s.pending(), Action::CheckPrivilege);
        s.advance(Event::Privilege { is_root: false });
        let denied = failed(ChrootError::PermissionDenied, Action::CheckPrivilege);
        assert_eq!(s.stage(), denied);
        assert_eq!(s.pending(), Action::Report(ChrootError::PermissionDenied));
        s.advance(Event::Privilege { is_root: true });
        s.advance(Event::Inspected { present: true, is_dir: true });
        s.advance(Event::Succeeded);
        s.advance(Event::Identity(Ok((0, 0))));
        s.advance(Event::Devices { device: 1, parent_device: Some(2) });
        s.advance(Event::Canonical(Some("/x".to_string())));
        s.advance(Event::Failed);
        assert_eq!(s.stage(), denied);
        assert!(s.request().is_none());
    }
}

#[test]
fn events_that_answer_nothing_change_nothing() {
    let mut s = session(Strategy::ManualPivot, "/srv/rootfs", None, &["/bin/sh"]);
    s.advance(Event::Succeeded);
    s.advance(Event::Inspected { present: true, is_dir: true });
    s.advance(Event::Identity(Ok((1, 1))));
    assert_eq!(s.stage(), Stage::CheckingPrivilege);
    s.advance(Event::Privilege { is_root: true });
    s.advance(Event::Privilege { is_root: false });
    s.advance(Event::Succeeded);
    assert_eq!(s.stage(), Stage::InspectingRoot);
}

#[test]
fn an_invalid_root_ends_the_attempt() {
    for (present, is_dir) in [(false, false), (true, false), (false, true)] {
        let mut s = session(Strategy::NamespaceDelegated, "/srv/rootfs", None, &["/bin/sh"]);
        s.advance(Event::Privilege { is_root: true });
        s.advance(Event::Inspected { present, is_dir });
        assert_eq!(s.stage(), failed(ChrootError::InvalidRoot, Action::InspectRoot));
    }
    let mut s = session(Strategy::NamespaceDelegated, "/srv/rootfs", None, &["/bin/sh"]);
    s.advance(Event::Privilege { is_root: true });
    s.advance(Event::Failed);
    assert_eq!(s.stage(), failed(ChrootError::InvalidRoot, Action::InspectRoot));
}

#[test]
fn a_relative_root_is_made_canonical() {
    let mut s = session(Strategy::NamespaceDelegated, "rootfs", None, &["/bin/sh"]);
    s.advance(Event::Privilege { is_root: true });
    s.advance(Event::Inspected { present: true, is_dir: true });
    assert_eq!(s.pending(), Action::Canonicalize);
    assert_eq!(s.new_root(), "rootfs");
    s.advance(Event::Canonical(Some("/work/rootfs".to_string())));
    assert_eq!(s.pending(), Action::Delegate);
    assert_eq!(s.request().as_ref().unwrap().rootfs, "/work/rootfs");

    for answer in [Event::Canonical(None), Event::Canonical(Some("still/relative".to_string())), Event::Failed] {
        let mut s = session(Strategy::NamespaceDelegated, "rootfs", None, &["/bin/sh"]);
        s.advance(Event::Privilege { is_root: true });
        s.advance(Event::Inspected { present: true, is_dir: true });
        s.advance(answer);
        assert_eq!(s.stage(), failed(ChrootError::InvalidRoot, Action::Canonicalize));
    }
}

#[test]
fn an_empty_command_is_found_when_the_request_is_assembled() {
    let mut s = session(Strategy::NamespaceDelegated, "/srv/rootfs", None, &[]);
    s.advance(Event::Privilege { is_root: true });
    s.advance(Event::Inspected { present: true, is_dir: true });
    assert_eq!(s.stage(), failed(ChrootError::EmptyCommand, Action::InspectRoot));
    let userspec = UserGroupPair::new("1".to_string(), Some("1".to_string()));
    let mut s = session(Strategy::ManualPivot, "/srv/rootfs", Some(userspec), &[]);
    s.advance(Event::Privilege { is_root: true });
    s.advance(Event::Inspected { present: true, is_dir: true });
    s.advance(Event::Identity(Ok((1, 1))));
    assert_eq!(s.stage(), failed(ChrootError::EmptyCommand, Action::ResolveIdentity));
    assert!(s.request().is_none());
}

#[test]
fn a_failed_delegation_is_a_failed_launch() {
    let mut s = session(Strategy::NamespaceDelegated, "/srv/rootfs", None, &["/bin/sh"]);
    s.advance(Event::Privilege { is_root: true });
    s.advance(Event::Inspected { present: true, is_dir: true });
    s.advance(Event::Succeeded);
    assert_eq!(s.stage(), Stage::Delegating);
    s.advance(Event::Failed);
    assert_eq!(s.stage(), failed(ChrootError::ExecFailed, Action::Delegate));
}

fn at_pivot(userspec: Option<UserGroupPair>) -> Session {
    let mut s = session(Strategy::ManualPivot, "/srv/rootfs", userspec, &["/bin/sh", "-l"]);
    s.advance(Event::Privilege { is_root: true });
    s.advance(Event::Inspected { present: true, is_dir: true });
    if s.pending() == Action::ResolveIdentity {
        s.advance(Event::Identity(Ok((1000, 100))));
    }
    assert_eq!(s.stage(), Stage::Switching(PivotState::ValidatingTarget));
    s
}

#[test]
fn the_manual_pivot_runs_its_steps_in_order() {
    let userspec = UserGroupPair::new("alice".to_string(), None);
    let mut s = at_pivot(Some(userspec));
    let mut seen = Vec::new();
    seen.push(s.pending());
    s.advance(Event::Inspected { present: true, is_dir: true });
    seen.push(s.pending());
    s.advance(Event::Inspected { present: false, is_dir: false });
    seen.push(s.pending());
    s.advance(Event::Succeeded);
    seen.push(s.pending());
    s.advance(Event::Devices { device: 7, parent_device: Some(7) });
    seen.push(s.pending());
    s.advance(Event::Succeeded);
    seen.push(s.pending());
    s.advance(Event::Succeeded);
    seen.push(s.pending());
    s.advance(Event::Succeeded);
    seen.push(s.pending());
    s.advance(Event::Succeeded);
    seen.push(s.pending());
    s.advance(Event::Succeeded);
    seen.push(s.pending());
    s.advance(Event::Succeeded);
    seen.push(s.pending());
    s.advance(Event::Succeeded);
    seen.push(s.pending());
    assert_eq!(
        seen,
        vec![
            Action::Pivot(PivotAction::InspectTarget),
            Action::Pivot(PivotAction::InspectHolder),
            Action::Pivot(PivotAction::CreateHolder),
            Action::Pivot(PivotAction::ProbeDevices),
            Action::Pivot(PivotAction::BindTarget),
            Action::Pivot(PivotAction::EnterTarget),
            Action::Pivot(PivotAction::PivotRoot),
            Action::Pivot(PivotAction::EnterNewRoot),
            Action::Pivot(PivotAction::UnmountOldRoot),
            Action::Drop(DropAction::SetGroupId(100)),
            Action::Drop(DropAction::SetUserId(1000)),
            Action::Launch,
        ]
    );
    assert_eq!(s.warning(), None);
    s.advance(Event::Failed);
    assert_eq!(s.stage(), failed(ChrootError::ExecFailed, Action::Launch));
}

#[test]
fn a_mount_point_is_not_bound_again_and_a_holder_is_not_made_twice() {
    let mut s = at_pivot(None);
    s.advance(Event::Inspected { present: true, is_dir: true });
    s.advance(Event::Inspected { present: true, is_dir: true });
    assert_eq!(s.pending(), Action::Pivot(PivotAction::ProbeDevices));
    s.advance(Event::Devices { device: 7, parent_device: Some(8) });
    assert_eq!(s.pending(), Action::Pivot(PivotAction::EnterTarget));
    let mut s = at_pivot(None);
    s.advance(Event::Inspected { present: true, is_dir: true });
    s.advance(Event::Inspected { present: true, is_dir: true });
    s.advance(Event::Devices { device: 7, parent_device: None });
    assert_eq!(s.pending(), Action::Pivot(PivotAction::EnterTarget));
}

#[test]
fn a_failed_unmount_is_a_warning_only() {
    let mut s = at_pivot(None);
    s.advance(Event::Inspected { present: true, is_dir: true });
    s.advance(Event::Inspected { present: true, is_dir: true });
    s.advance(Event::Devices { device: 7, parent_device: Some(8) });
    s.advance(Event::Succeeded);
    s.advance(Event::Succeeded);
    s.advance(Event::Succeeded);
    assert_eq!(s.pending(), Action::Pivot(PivotAction::UnmountOldRoot));
    s.advance(Event::Failed);
    assert_eq!(s.warning(), Some(ChrootError::UnmountFailed));
    assert_eq!(s.pending(), Action::Drop(DropAction::SetGroupId(65534)));
    s.advance(Event::Succeeded);
    assert_eq!(s.pending(), Action::Drop(DropAction::SetUserId(65534)));
    s.advance(Event::Succeeded);
    assert_eq!(s.pending(), Action::Launch);
}

#[test]
fn refused_identity_changes_carry_the_id() {
    for (first, expected, during) in [
        (Event::Failed, ChrootError::PrivilegeDropFailed(100), Action::Drop(DropAction::SetGroupId(100))),
        (Event::Succeeded, ChrootError::PrivilegeDropFailed(1000), Action::Drop(DropAction::SetUserId(1000))),
    ] {
        let userspec = UserGroupPair::new("alice".to_string(), None);
        let mut s = at_pivot(Some(userspec));
        s.advance(Event::Inspected { present: true, is_dir: true });
        s.advance(Event::Inspected { present: true, is_dir: true });
        s.advance(Event::Devices { device: 7, parent_device: Some(8) });
        s.advance(Event::Succeeded);
        s.advance(Event::Succeeded);
        s.advance(Event::Succeeded);
        s.advance(Event::Succeeded);
        assert_eq!(s.stage(), Stage::Dropping(DropState::SettingGroup));
        s.advance(first);
        s.advance(Event::Failed);
        assert_eq!(s.stage(), failed(expected, during));
    }
}

#[test]
fn each_step_of_the_pivot_fails_under_its_kind() {
    let ok = PivotEvent::Succeeded;
    let no = PivotEvent::Failed;
    assert_eq!(pivot_start(), PivotState::ValidatingTarget);
    assert_eq!(
        pivot_advance(PivotState::ValidatingTarget, PivotEvent::Inspected { present: true, is_dir: false }),
        PivotOutcome::Failed(ChrootError::InvalidRoot)
    );
    assert_eq!(pivot_advance(PivotState::ValidatingTarget, no), PivotOutcome::Failed(ChrootError::InvalidRoot));
    assert_eq!(
        pivot_advance(PivotState::CheckingHolder, no),
        PivotOutcome::Continue(PivotState::CreatingHolder)
    );
    assert_eq!(pivot_advance(PivotState::CreatingHolder, no), PivotOutcome::Failed(ChrootError::MountFailed));
    assert_eq!(pivot_advance(PivotState::ProbingMount, no), PivotOutcome::Failed(ChrootError::MountFailed));
    assert_eq!(pivot_advance(PivotState::BindingRoot, no), PivotOutcome::Failed(ChrootError::MountFailed));
    assert_eq!(pivot_advance(PivotState::EnteringTarget, no), PivotOutcome::Failed(ChrootError::PivotFailed));
    assert_eq!(pivot_advance(PivotState::Pivoting, no), PivotOutcome::Failed(ChrootError::PivotFailed));
    assert_eq!(pivot_advance(PivotState::EnteringNewRoot, no), PivotOutcome::Failed(ChrootError::PivotFailed));
    assert_eq!(
        pivot_advance(PivotState::DetachingOldRoot, no),
        PivotOutcome::Switched { old_root_detached: false }
    );
    assert_eq!(
        pivot_advance(PivotState::DetachingOldRoot, ok),
        PivotOutcome::Switched { old_root_detached: true }
    );
    assert_eq!(pivot_advance(PivotState::BindingRoot, ok), PivotOutcome::Continue(PivotState::EnteringTarget));
    assert_eq!(pivot_advance(PivotState::Pivoting, ok), PivotOutcome::Continue(PivotState::EnteringNewRoot));
    assert_eq!(
        pivot_advance(PivotState::Pivoting, PivotEvent::Devices { device: 1, parent_device: None }),
        PivotOutcome::Continue(PivotState::Pivoting)
    );
    assert_eq!(pivot_pending(PivotState::Pivoting), PivotAction::PivotRoot);
    assert_eq!(pivot_pending(PivotState::BindingRoot), PivotAction::BindTarget);
    assert_eq!(OLD_ROOT_HOLDER, ".old_root");
}

#[test]
fn the_group_is_set_before_the_user() {
    let identity = ResolvedIdentity { uid: 1000, gid: 100 };
    let state = drop_start();
    assert_eq!(drop_pending(identity, state), DropAction::SetGroupId(100));
    let next = drop_advance(identity, state, true);
    assert_eq!(next, DropOutcome::Continue(DropState::SettingUser));
    assert_eq!(drop_pending(identity, DropState::SettingUser), DropAction::SetUserId(1000));
    assert_eq!(drop_advance(identity, DropState::SettingUser, true), DropOutcome::Dropped);
    assert_eq!(
        drop_advance(identity, DropState::SettingGroup, false),
        DropOutcome::Failed(ChrootError::PrivilegeDropFailed(100))
    );
    assert_eq!(
        drop_advance(identity, DropState::SettingUser, false),
        DropOutcome::Failed(ChrootError::PrivilegeDropFailed(1000))
    );
}

#[test]
fn the_strategy_is_kept() {
    let s = session(Strategy::ManualPivot, "/srv/rootfs", None, &["/bin/sh"]);
    assert_eq!(s.strategy(), Strategy::ManualPivot);
    assert!(s.userspec().is_none());
}

#[test]
fn the_session_asks_the_system_itself_where_nothing_is_changed() {
    let userspec = UserGroupPair::new("nonexistentuser".to_string(), None);
    let mut s = session(Strategy::NamespaceDelegated, "/srv/rootfs", Some(userspec), &["/bin/sh"]);
    assert!(s.perform());
    match s.stage() {
        Stage::InspectingRoot => {
            assert!(!s.perform());
            assert_eq!(s.stage(), Stage::InspectingRoot);
            s.advance(Event::Inspected { present: true, is_dir: true });
            assert_eq!(s.pending(), Action::ResolveIdentity);
            assert!(s.perform());
            assert_eq!(
                s.stage(),
                failed(
                    ChrootError::IdentityNotFound(IdentityError::NoSuchUserName),
                    Action::ResolveIdentity
                )
            );
        }
        stage => {
            assert_eq!(stage, failed(ChrootError::PermissionDenied, Action::CheckPrivilege));
        }
    }
    assert!(!s.perform());
}

#[test]
fn a_refused_step_of_the_pivot_ends_the_attempt_under_its_kind() {
    let mut s = at_pivot(None);
    s.advance(Event::Inspected { present: true, is_dir: false });
    assert_eq!(s.stage(), failed(ChrootError::InvalidRoot, Action::Pivot(PivotAction::InspectTarget)));

    let mut s = at_pivot(None);
    s.advance(Event::Inspected { present: true, is_dir: true });
    s.advance(Event::Inspected { present: false, is_dir: false });
    s.advance(Event::Failed);
    assert_eq!(s.stage(), failed(ChrootError::MountFailed, Action::Pivot(PivotAction::CreateHolder)));

    let mut s = at_pivot(None);
    s.advance(Event::Inspected { present: true, is_dir: true });
    s.advance(Event::Inspected { present: true, is_dir: true });
    s.advance(Event::Devices { device: 3, parent_device: Some(3) });
    assert_eq!(s.pending(), Action::Pivot(PivotAction::BindTarget));
    s.advance(Event::Failed);
    assert_eq!(s.stage(), failed(ChrootError::MountFailed, Action::Pivot(PivotAction::BindTarget)));
    s.advance(Event::Succeeded);
    assert_eq!(s.pending(), Action::Report(ChrootError::MountFailed));

    let mut s = at_pivot(None);
    s.advance(Event::Inspected { present: true, is_dir: true });
    s.advance(Event::Inspected { present: true, is_dir: true });
    s.advance(Event::Devices { device: 3, parent_device: Some(4) });
    s.advance(Event::Succeeded);
    assert_eq!(s.pending(), Action::Pivot(PivotAction::PivotRoot));
    s.advance(Event::Failed);
    assert_eq!(s.stage(), failed(ChrootError::PivotFailed, Action::Pivot(PivotAction::PivotRoot)));
    assert_eq!(s.warning(), None);
}
