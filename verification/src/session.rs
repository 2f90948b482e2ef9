//! One attempt to run a command in a new root, from the privilege check to
//! the launch.
//!
//! A [`Session`] holds what the caller asked for and how far the attempt has
//! come. It never touches the system itself. It says which operation is due
//! ([`Session::pending`]), the caller carries that operation out and reports
//! what happened ([`Session::advance`]). The order of the operations, and
//! what each outcome leads to, is decided here: the privilege check comes
//! first, the target root and the identity are settled before anything is
//! changed, and a failure ends the attempt on the spot.

use vstd::prelude::*;
use crate::error::ChrootError;
use crate::identity::{
    resolve_with,
    Answers,
    IdentityError,
    IdentitySpec,
    ResolvedIdentity,
    UserGroupPair,
    NOBODY,
};
use crate::pivot::{
    pivot_action,
    pivot_advance,
    pivot_next,
    pivot_pending,
    PivotAction,
    PivotEvent,
    PivotOutcome,
    PivotState,
};
use crate::privilege::{
    drop_action,
    drop_advance,
    drop_next,
    drop_pending,
    DropAction,
    DropOutcome,
    DropState,
};
use crate::request::{build_request, request_for, IsolationRequest, RequestView};
use crate::rootfs::{accept_canonical, is_absolute, validate_root, RootCheck, ValidRoot};

verus! {

/// The way in which the new root is entered.
#[derive(Debug, Clone, Copy, PartialEq, Eq, Structural)]
pub enum Strategy {
    /// A namespace executor is handed the request: it isolates the
    /// namespaces, switches the root, takes the identity and launches.
    NamespaceDelegated,
    /// The root is pivoted by hand, the privileges are dropped and the
    /// program is launched, with no namespace of its own.
    ManualPivot,
}

/// An operation for the caller to carry out.
#[derive(Debug, Clone, Copy, PartialEq, Eq, Structural)]
pub enum Action {
    /// Say whether the effective user is root.
    CheckPrivilege,
    /// Say whether the path that was asked for exists and is a directory.
    InspectRoot,
    /// Give the canonical form of the path that was asked for.
    Canonicalize,
    /// Resolve the identity specification.
    ResolveIdentity,
    /// Hand the request to the namespace executor.
    Delegate,
    /// Take a step of the manual root switch.
    Pivot(PivotAction),
    /// Set the group or user id.
    Drop(DropAction),
    /// Replace the process image with the request's executable.
    Launch,
    /// Report the failure and exit: the attempt is over.
    Report(ChrootError),
}

/// A failure and the operation whose outcome brought it about.
#[derive(Debug, Clone, Copy, PartialEq, Eq, Structural)]
pub struct Failure {
    pub error: ChrootError,
    pub during: Action,
}

/// How far an attempt has come.
#[derive(Debug, Clone, Copy, PartialEq, Eq, Structural)]
pub enum Stage {
    /// Nothing is known yet of the caller's privilege.
    CheckingPrivilege,
    /// The caller is root; the target path is being looked at.
    InspectingRoot,
    /// The target is a directory given by a relative path.
    Canonicalizing,
    /// The root is settled; the identity specification is being resolved.
    ResolvingIdentity,
    /// The request is with the namespace executor. It does not answer on
    /// success: the target program has taken over then. Its failure, at
    /// whichever step of its own, counts as a failed launch.
    Delegating,
    /// The root is being switched by hand.
    Switching(PivotState),
    /// The root is switched; the privileges are being dropped.
    Dropping(DropState),
    /// The privileges are dropped; the target program is being launched.
    Launching,
    /// The attempt is over.
    Failed(Failure),
}

/// What the caller reports of the operation it carried out.
#[derive(Debug)]
pub enum Event {
    /// The effective user is root, or not.
    Privilege { is_root: bool },
    /// The inspected path exists, or not, and is a directory, or not.
    Inspected { present: bool, is_dir: bool },
    /// The canonical form of the path, or `None` where there is none.
    Canonical(Option<String>),
    /// The outcome of the identity resolution.
    Identity(Result<(u32, u32), IdentityError>),
    /// The device the target resides on, and that of its parent directory
    /// where it has one.
    Devices { device: u64, parent_device: Option<u64> },
    /// The operation was carried out.
    Succeeded,
    /// The operation was refused.
    Failed,
}

/// The mathematical content of an [`Event`].
pub ghost enum EventView {
    Privilege { is_root: bool },
    Inspected { present: bool, is_dir: bool },
    Canonical(Option<Seq<char>>),
    Identity(Result<(u32, u32), IdentityError>),
    Devices { device: u64, parent_device: Option<u64> },
    Succeeded,
    Failed,
}

impl View for Event {
    type V = EventView;

    open spec fn view(&self) -> EventView {
        match *self {
            Event::Privilege { is_root } => EventView::Privilege { is_root },
            Event::Inspected { present, is_dir } => EventView::Inspected { present, is_dir },
            Event::Canonical(path) => EventView::Canonical(
                match path {
                    Some(p) => Some(p@),
                    None => None,
                },
            ),
            Event::Identity(outcome) => EventView::Identity(outcome),
            Event::Devices { device, parent_device } => EventView::Devices { device, parent_device },
            Event::Succeeded => EventView::Succeeded,
            Event::Failed => EventView::Failed,
        }
    }
}

/// An attempt to run a command in a new root.
#[derive(Debug)]
pub struct Session {
    strategy: Strategy,
    new_root: String,
    userspec: Option<UserGroupPair>,
    command: Vec<String>,
    stage: Stage,
    root: Option<ValidRoot>,
    identity: ResolvedIdentity,
    request: Option<IsolationRequest>,
    warning: Option<ChrootError>,
}

/// The mathematical content of a [`Session`].
pub ghost struct SessionView {
    /// How the new root is to be entered.
    pub strategy: Strategy,
    /// The target path as the caller gave it.
    pub new_root: Seq<char>,
    /// The identity specification, where the caller gave one.
    pub userspec: Option<IdentitySpec>,
    /// The command line: the executable, then its arguments.
    pub command: Seq<Seq<char>>,
    /// How far the attempt has come.
    pub stage: Stage,
    /// The validated root, once there is one.
    pub root: Option<Seq<char>>,
    /// The identity to run under: "nobody" until another is resolved.
    pub identity: ResolvedIdentity,
    /// The request, once it is assembled.
    pub request: Option<RequestView>,
    /// What went wrong without ending the attempt.
    pub warning: Option<ChrootError>,
}

/// The identity of "nobody", under which a command runs where the caller
/// names no other.
pub open spec fn nobody() -> ResolvedIdentity {
    ResolvedIdentity { uid: NOBODY, gid: NOBODY }
}

/// The part of a session's event that the manual root switch understands.
pub open spec fn pivot_event(event: EventView) -> Option<PivotEvent> {
    match event {
        EventView::Inspected { present, is_dir } => Some(PivotEvent::Inspected { present, is_dir }),
        EventView::Devices { device, parent_device } => Some(
            PivotEvent::Devices { device, parent_device },
        ),
        EventView::Succeeded => Some(PivotEvent::Succeeded),
        EventView::Failed => Some(PivotEvent::Failed),
        _ => None,
    }
}

impl SessionView {
    /// The session of a caller who has done nothing yet.
    pub open spec fn start(
        strategy: Strategy,
        new_root: Seq<char>,
        userspec: Option<IdentitySpec>,
        command: Seq<Seq<char>>,
    ) -> SessionView {
        SessionView {
            strategy,
            new_root,
            userspec,
            command,
            stage: Stage::CheckingPrivilege,
            root: None,
            identity: nobody(),
            request: None,
            warning: None,
        }
    }

    /// The operation that is due.
    pub open spec fn pending(self) -> Action {
        match self.stage {
            Stage::CheckingPrivilege => Action::CheckPrivilege,
            Stage::InspectingRoot => Action::InspectRoot,
            Stage::Canonicalizing => Action::Canonicalize,
            Stage::ResolvingIdentity => Action::ResolveIdentity,
            Stage::Delegating => Action::Delegate,
            Stage::Switching(step) => Action::Pivot(pivot_action(step)),
            Stage::Dropping(step) => Action::Drop(drop_action(self.identity, step)),
            Stage::Launching => Action::Launch,
            Stage::Failed(failure) => Action::Report(failure.error),
        }
    }

    /// The session at another stage.
    pub open spec fn at(self, stage: Stage) -> SessionView {
        SessionView { stage, ..self }
    }

    /// The session, failed on the outcome of the operation that was due.
    pub open spec fn fail(self, error: ChrootError) -> SessionView {
        self.at(Stage::Failed(Failure { error, during: self.pending() }))
    }

    /// The session once the identity is settled: the request is assembled
    /// and the strategy begins, unless the command is empty.
    pub open spec fn with_identity(self, identity: ResolvedIdentity) -> SessionView {
        match self.root {
            None => self.fail(ChrootError::InvalidRoot),
            Some(root) => if self.command.len() == 0 {
                self.fail(ChrootError::EmptyCommand)
            } else {
                SessionView {
                    identity,
                    request: Some(request_for(root, identity, self.command)),
                    stage: match self.strategy {
                        Strategy::NamespaceDelegated => Stage::Delegating,
                        Strategy::ManualPivot => Stage::Switching(PivotState::ValidatingTarget),
                    },
                    ..self
                }
            },
        }
    }

    /// The session once the root is settled: the identity is resolved
    /// next, where one was specified, and is "nobody" where none was.
    pub open spec fn with_root(self, root: Seq<char>) -> SessionView {
        let rooted = SessionView { root: Some(root), ..self };
        if self.userspec is Some {
            rooted.at(Stage::ResolvingIdentity)
        } else {
            rooted.with_identity(nobody())
        }
    }

    /// The transition function: the session after the caller reported
    /// `event`. An event that is no report of the operation that was due
    /// changes nothing, and neither does any event after a failure.
    pub open spec fn advance(self, event: EventView) -> SessionView {
        match self.stage {
            Stage::CheckingPrivilege => match event {
                EventView::Privilege { is_root } => if is_root {
                    self.at(Stage::InspectingRoot)
                } else {
                    self.fail(ChrootError::PermissionDenied)
                },
                _ => self,
            },
            Stage::InspectingRoot => match event {
                EventView::Inspected { present, is_dir } => if !(present && is_dir) {
                    self.fail(ChrootError::InvalidRoot)
                } else if is_absolute(self.new_root) {
                    self.with_root(self.new_root)
                } else {
                    self.at(Stage::Canonicalizing)
                },
                EventView::Failed => self.fail(ChrootError::InvalidRoot),
                _ => self,
            },
            Stage::Canonicalizing => match event {
                EventView::Canonical(Some(path)) => if is_absolute(path) {
                    self.with_root(path)
                } else {
                    self.fail(ChrootError::InvalidRoot)
                },
                EventView::Canonical(None) => self.fail(ChrootError::InvalidRoot),
                EventView::Failed => self.fail(ChrootError::InvalidRoot),
                _ => self,
            },
            Stage::ResolvingIdentity => match event {
                EventView::Identity(Ok(ids)) => self.with_identity(
                    ResolvedIdentity { uid: ids.0, gid: ids.1 },
                ),
                EventView::Identity(Err(e)) => self.fail(ChrootError::IdentityNotFound(e)),
                _ => self,
            },
            Stage::Delegating => match event {
                EventView::Failed => self.fail(ChrootError::ExecFailed),
                _ => self,
            },
            Stage::Switching(step) => match pivot_event(event) {
                None => self,
                Some(report) => match pivot_next(step, report) {
                    PivotOutcome::Continue(next) => self.at(Stage::Switching(next)),
                    PivotOutcome::Switched { old_root_detached } => SessionView {
                        stage: Stage::Dropping(DropState::SettingGroup),
                        warning: if old_root_detached {
                            self.warning
                        } else {
                            Some(ChrootError::UnmountFailed)
                        },
                        ..self
                    },
                    PivotOutcome::Failed(error) => self.fail(error),
                },
            },
            Stage::Dropping(step) => match event {
                EventView::Succeeded | EventView::Failed => match drop_next(
                    self.identity,
                    step,
                    event is Succeeded,
                ) {
                    DropOutcome::Continue(next) => self.at(Stage::Dropping(next)),
                    DropOutcome::Dropped => self.at(Stage::Launching),
                    DropOutcome::Failed(error) => self.fail(error),
                },
                _ => self,
            },
            Stage::Launching => match event {
                EventView::Failed => self.fail(ChrootError::ExecFailed),
                _ => self,
            },
            Stage::Failed(_) => self,
        }
    }
}

/// Asks the kernel whether the effective user of this process is root,
/// through `rustix::process::geteuid`. The answer is the process's own:
/// nothing is claimed of it.
#[verifier::external_body]
fn effective_user_is_root() -> (is_root: bool) {
    rustix::process::geteuid().is_root()
}

/// Whether `outcome` is what resolving `userspec` can give: the outcome
/// that follows from some answers of a database.
pub open spec fn resolves_to(
    userspec: IdentitySpec,
    outcome: Result<(u32, u32), IdentityError>,
) -> bool {
    exists|answers: Answers| outcome == resolve_with(userspec, answers)
}

impl View for Session {
    type V = SessionView;

    closed spec fn view(&self) -> SessionView {
        SessionView {
            strategy: self.strategy,
            new_root: self.new_root@,
            userspec: match self.userspec {
                Some(pair) => Some(pair@),
                None => None,
            },
            command: self.command.deep_view(),
            stage: self.stage,
            root: match self.root {
                Some(root) => Some(root@),
                None => None,
            },
            identity: self.identity,
            request: match self.request {
                Some(request) => Some(request@),
                None => None,
            },
            warning: self.warning,
        }
    }
}

impl Session {
    /// Begins an attempt: nothing is done yet, the privilege check is due.
    pub fn new(
        strategy: Strategy,
        new_root: String,
        userspec: Option<UserGroupPair>,
        command: Vec<String>,
    ) -> (session: Session)
        ensures
            session@ == SessionView::start(
                strategy,
                new_root@,
                match userspec {
                    Some(pair) => Some(pair@),
                    None => None,
                },
                command.deep_view(),
            ),
    {
        Session {
            strategy,
            new_root,
            userspec,
            command,
            stage: Stage::CheckingPrivilege,
            root: None,
            identity: ResolvedIdentity { uid: NOBODY, gid: NOBODY },
            request: None,
            warning: None,
        }
    }

    /// How far the attempt has come.
    pub fn stage(&self) -> (stage: Stage)
        ensures
            stage == self@.stage,
    {
        self.stage
    }

    /// The way in which the new root is entered.
    pub fn strategy(&self) -> (strategy: Strategy)
        ensures
            strategy == self@.strategy,
    {
        self.strategy
    }

    /// The target path as the caller gave it.
    pub fn new_root(&self) -> (path: &str)
        ensures
            path@ == self@.new_root,
    {
        self.new_root.as_str()
    }

    /// The identity specification, where the caller gave one.
    pub fn userspec(&self) -> (userspec: &Option<UserGroupPair>)
        ensures
            self@.userspec == match *userspec {
                Some(pair) => Some(pair@),
                None => None,
            },
    {
        &self.userspec
    }

    /// The identity to run under.
    pub fn identity(&self) -> (identity: ResolvedIdentity)
        ensures
            identity == self@.identity,
    {
        self.identity
    }

    /// The request, once it is assembled.
    pub fn request(&self) -> (request: &Option<IsolationRequest>)
        ensures
            self@.request == match *request {
                Some(r) => Some(r@),
                None => None,
            },
    {
        &self.request
    }

    /// What went wrong without ending the attempt.
    pub fn warning(&self) -> (warning: Option<ChrootError>)
        ensures
            warning == self@.warning,
    {
        self.warning
    }

    /// The operation that is due.
    pub fn pending(&self) -> (action: Action)
        ensures
            action == self@.pending(),
    {
        match self.stage {
            Stage::CheckingPrivilege => Action::CheckPrivilege,
            Stage::InspectingRoot => Action::InspectRoot,
            Stage::Canonicalizing => Action::Canonicalize,
            Stage::ResolvingIdentity => Action::ResolveIdentity,
            Stage::Delegating => Action::Delegate,
            Stage::Switching(step) => Action::Pivot(pivot_pending(step)),
            Stage::Dropping(step) => Action::Drop(drop_pending(self.identity, step)),
            Stage::Launching => Action::Launch,
            Stage::Failed(failure) => Action::Report(failure.error),
        }
    }

    fn fail(&mut self, error: ChrootError)
        ensures
            final(self)@ == old(self)@.fail(error),
    {
        let during = self.pending();
        self.stage = Stage::Failed(Failure { error, during });
    }

    fn accept_identity(&mut self, identity: ResolvedIdentity)
        ensures
            final(self)@ == old(self)@.with_identity(identity),
    {
        let built = match &self.root {
            None => Err(ChrootError::InvalidRoot),
            Some(root) => build_request(root, identity, &self.command),
        };
        match built {
            Err(error) => {
                self.fail(error);
            },
            Ok(request) => {
                self.identity = identity;
                self.request = Some(request);
                self.stage = match self.strategy {
                    Strategy::NamespaceDelegated => Stage::Delegating,
                    Strategy::ManualPivot => Stage::Switching(PivotState::ValidatingTarget),
                };
            },
        }
    }

    fn accept_root(&mut self, root: ValidRoot)
        ensures
            final(self)@ == old(self)@.with_root(root@),
    {
        self.root = Some(root);
        if self.userspec.is_some() {
            self.stage = Stage::ResolvingIdentity;
        } else {
            self.accept_identity(ResolvedIdentity { uid: NOBODY, gid: NOBODY });
        }
    }

    /// Carries out the operation that is due, where that is one that asks
    /// the system a question without changing anything: the privilege
    /// check, which asks the kernel, and the identity resolution, which
    /// asks the system's identity database. Says whether it did; any other
    /// operation is left to the caller and the attempt stays as it is.
    pub fn perform(&mut self) -> (done: bool)
        ensures
            match old(self)@.pending() {
                Action::CheckPrivilege => done && exists|is_root: bool|
                    final(self)@ == old(self)@.advance(EventView::Privilege { is_root }),
                Action::ResolveIdentity => match old(self)@.userspec {
                    Some(userspec) => done && exists|outcome: Result<(u32, u32), IdentityError>|
                        resolves_to(userspec, outcome) && final(self)@ == old(self)@.advance(
                            EventView::Identity(outcome),
                        ),
                    None => !done && final(self)@ == old(self)@,
                },
                _ => !done && final(self)@ == old(self)@,
            },
    {
        match self.stage {
            Stage::CheckingPrivilege => {
                let is_root = effective_user_is_root();
                self.advance(Event::Privilege { is_root });
                assert(self@ == old(self)@.advance(EventView::Privilege { is_root }));
                true
            },
            Stage::ResolvingIdentity => {
                let outcome = match &self.userspec {
                    Some(pair) => Some(pair.resolve_ids()),
                    None => None,
                };
                match outcome {
                    Some(outcome) => {
                        self.advance(Event::Identity(outcome));
                        assert(resolves_to(old(self)@.userspec->0, outcome));
                        assert(self@ == old(self)@.advance(EventView::Identity(outcome)));
                        true
                    },
                    None => false,
                }
            },
            _ => false,
        }
    }

    /// Takes the attempt to where `event` leads.
    pub fn advance(&mut self, event: Event)
        ensures
            final(self)@ == old(self)@.advance(event@),
    {
        match self.stage {
            Stage::CheckingPrivilege => match event {
                Event::Privilege { is_root } => {
                    if is_root {
                        self.stage = Stage::InspectingRoot;
                    } else {
                        self.fail(ChrootError::PermissionDenied);
                    }
                },
                _ => {},
            },
            Stage::InspectingRoot => match event {
                Event::Inspected { present, is_dir } => {
                    match validate_root(self.new_root.as_str(), present, is_dir) {
                        Err(error) => {
                            self.fail(error);
                        },
                        Ok(RootCheck::Accepted(root)) => {
                            self.accept_root(root);
                        },
                        Ok(RootCheck::NeedsCanonicalPath) => {
                            self.stage = Stage::Canonicalizing;
                        },
                    }
                },
                Event::Failed => {
                    self.fail(ChrootError::InvalidRoot);
                },
                _ => {},
            },
            Stage::Canonicalizing => match event {
                Event::Canonical(path) => {
                    match accept_canonical(path) {
                        Err(error) => {
                            self.fail(error);
                        },
                        Ok(root) => {
                            self.accept_root(root);
                        },
                    }
                },
                Event::Failed => {
                    self.fail(ChrootError::InvalidRoot);
                },
                _ => {},
            },
            Stage::ResolvingIdentity => match event {
                Event::Identity(Ok(ids)) => {
                    self.accept_identity(ResolvedIdentity { uid: ids.0, gid: ids.1 });
                },
                Event::Identity(Err(e)) => {
                    self.fail(ChrootError::IdentityNotFound(e));
                },
                _ => {},
            },
            Stage::Delegating => match event {
                Event::Failed => {
                    self.fail(ChrootError::ExecFailed);
                },
                _ => {},
            },
            Stage::Switching(step) => {
                let report = match event {
                    Event::Inspected { present, is_dir } => Some(
                        PivotEvent::Inspected { present, is_dir },
                    ),
                    Event::Devices { device, parent_device } => Some(
                        PivotEvent::Devices { device, parent_device },
                    ),
                    Event::Succeeded => Some(PivotEvent::Succeeded),
                    Event::Failed => Some(PivotEvent::Failed),
                    _ => None,
                };
                match report {
                    None => {},
                    Some(report) => match pivot_advance(step, report) {
                        PivotOutcome::Continue(next) => {
                            self.stage = Stage::Switching(next);
                        },
                        PivotOutcome::Switched { old_root_detached } => {
                            self.stage = Stage::Dropping(DropState::SettingGroup);
                            if !old_root_detached {
                                self.warning = Some(ChrootError::UnmountFailed);
                            }
                        },
                        PivotOutcome::Failed(error) => {
                            self.fail(error);
                        },
                    },
                }
            },
            Stage::Dropping(step) => {
                let succeeded = match event {
                    Event::Succeeded => Some(true),
                    Event::Failed => Some(false),
                    _ => None,
                };
                match succeeded {
                    None => {},
                    Some(succeeded) => match drop_advance(self.identity, step, succeeded) {
                        DropOutcome::Continue(next) => {
                            self.stage = Stage::Dropping(next);
                        },
                        DropOutcome::Dropped => {
                            self.stage = Stage::Launching;
                        },
                        DropOutcome::Failed(error) => {
                            self.fail(error);
                        },
                    },
                }
            },
            Stage::Launching => match event {
                Event::Failed => {
                    self.fail(ChrootError::ExecFailed);
                },
                _ => {},
            },
            Stage::Failed(_) => {},
        }
    }
}

} // verus!
