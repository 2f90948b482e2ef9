//! The declarative description of an isolated execution.
//!
//! An [`IsolationRequest`] says what the isolated process will look like:
//! its root, its identity, the kernel namespaces it gets for itself, and
//! the program it runs. It is assembled here without any I/O, and every way
//! of entering the new root works from it alone.

use vstd::prelude::*;
use crate::error::ChrootError;
use crate::identity::ResolvedIdentity;
use crate::rootfs::{is_absolute, ValidRoot};

verus! {

/// A kind of kernel namespace.
#[derive(Debug, Clone, Copy, PartialEq, Eq, Structural)]
pub enum Namespace {
    Mount,
    Uts,
    Ipc,
    User,
    Pid,
    Net,
    Cgroup,
    Time,
}

/// The label under which the isolated workload is known.
pub const WORKLOAD_ID: &'static str = "rizzybox-chroot";

/// The hostname inside the isolated environment.
pub const HOSTNAME: &'static str = "rizzybox-container";

/// The one variable of the isolated process's environment.
pub const PATH_VARIABLE: &'static str = "PATH";

/// The search path of the isolated process.
pub const SAFE_PATH: &'static str = "/usr/local/sbin:/usr/local/bin:/usr/sbin:/usr/bin:/sbin:/bin";

/// The working directory of the isolated process, inside the new root.
pub const WORKING_DIRECTORY: &'static str = "/";

/// What the isolated process will look like.
#[derive(Debug)]
pub struct IsolationRequest {
    pub rootfs: String,
    pub identity: ResolvedIdentity,
    pub namespaces: Vec<Namespace>,
    pub workload_id: String,
    pub hostname: String,
    pub environment: Vec<(String, String)>,
    pub executable: String,
    pub arguments: Vec<String>,
    pub working_directory: String,
    pub setgroups_deny: bool,
}

/// The mathematical content of an [`IsolationRequest`].
pub ghost struct RequestView {
    pub rootfs: Seq<char>,
    pub identity: ResolvedIdentity,
    pub namespaces: Seq<Namespace>,
    pub workload_id: Seq<char>,
    pub hostname: Seq<char>,
    pub environment: Seq<(Seq<char>, Seq<char>)>,
    pub executable: Seq<char>,
    pub arguments: Seq<Seq<char>>,
    pub working_directory: Seq<char>,
    pub setgroups_deny: bool,
}

impl View for IsolationRequest {
    type V = RequestView;

    open spec fn view(&self) -> RequestView {
        RequestView {
            rootfs: self.rootfs@,
            identity: self.identity,
            namespaces: self.namespaces@,
            workload_id: self.workload_id@,
            hostname: self.hostname@,
            environment: self.environment.deep_view(),
            executable: self.executable@,
            arguments: self.arguments.deep_view(),
            working_directory: self.working_directory@,
            setgroups_deny: self.setgroups_deny,
        }
    }
}

/// The namespaces that every request isolates: all kinds but the user
/// namespace, which would get in the way of the mounts.
pub open spec fn isolated_namespaces() -> Seq<Namespace> {
    seq![
        Namespace::Mount,
        Namespace::Time,
        Namespace::Uts,
        Namespace::Pid,
        Namespace::Ipc,
        Namespace::Cgroup,
        Namespace::Net,
    ]
}

/// The request for running `command` under `identity` in `rootfs`: the
/// first token of the command is the executable, the rest its arguments.
pub open spec fn request_for(
    rootfs: Seq<char>,
    identity: ResolvedIdentity,
    command: Seq<Seq<char>>,
) -> RequestView
    recommends
        command.len() > 0,
{
    RequestView {
        rootfs,
        identity,
        namespaces: isolated_namespaces(),
        workload_id: WORKLOAD_ID@,
        hostname: HOSTNAME@,
        environment: seq![(PATH_VARIABLE@, SAFE_PATH@)],
        executable: command[0],
        arguments: command.skip(1),
        working_directory: WORKING_DIRECTORY@,
        setgroups_deny: false,
    }
}

impl RequestView {
    /// What every request that is handed to an executor satisfies: its
    /// root is an absolute path and no user namespace is asked for.
    pub open spec fn well_formed(self) -> bool {
        &&& is_absolute(self.rootfs)
        &&& !self.namespaces.contains(Namespace::User)
    }
}

/// Assembles the request for running `command` under `identity` in `root`.
///
/// Fails, with `EmptyCommand`, exactly where the command has no token.
pub fn build_request(root: &ValidRoot, identity: ResolvedIdentity, command: &Vec<String>) -> (r:
    Result<IsolationRequest, ChrootError>)
    ensures
        match r {
            Ok(request) => {
                &&& command@.len() > 0
                &&& request@ == request_for(root@, identity, command.deep_view())
                &&& request@.well_formed()
            },
            Err(e) => command@.len() == 0 && e == ChrootError::EmptyCommand,
        },
{
    if command.len() == 0 {
        return Err(ChrootError::EmptyCommand);
    }
    let executable = command[0].clone();
    let mut arguments: Vec<String> = Vec::new();
    let mut i: usize = 1;
    while i < command.len()
        invariant
            1 <= i <= command.len(),
            arguments@.len() == i - 1,
            forall|k: int| 0 <= k < i - 1 ==> (#[trigger] arguments@[k])@ == command@[k + 1]@,
        decreases command.len() - i,
    {
        arguments.push(command[i].clone());
        i += 1;
    }
    let mut namespaces: Vec<Namespace> = Vec::new();
    namespaces.push(Namespace::Mount);
    namespaces.push(Namespace::Time);
    namespaces.push(Namespace::Uts);
    namespaces.push(Namespace::Pid);
    namespaces.push(Namespace::Ipc);
    namespaces.push(Namespace::Cgroup);
    namespaces.push(Namespace::Net);
    let mut environment: Vec<(String, String)> = Vec::new();
    environment.push((PATH_VARIABLE.to_owned(), SAFE_PATH.to_owned()));
    let request = IsolationRequest {
        rootfs: root.as_str().to_owned(),
        identity,
        namespaces,
        workload_id: WORKLOAD_ID.to_owned(),
        hostname: HOSTNAME.to_owned(),
        environment,
        executable,
        arguments,
        working_directory: WORKING_DIRECTORY.to_owned(),
        setgroups_deny: false,
    };
    proof {
        assert(request.namespaces@ =~= isolated_namespaces());
        assert(request.arguments.deep_view() =~= command.deep_view().skip(1));
        assert(request.environment.deep_view() =~= seq![(PATH_VARIABLE@, SAFE_PATH@)]);
        assert(request.executable@ == command.deep_view()[0]);
        lemma_no_user_namespace();
    }
    Ok(request)
}

/// The user namespace is not among those that a request isolates.
pub proof fn lemma_no_user_namespace()
    ensures
        !isolated_namespaces().contains(Namespace::User),
        isolated_namespaces().len() == 7,
{
    let all = isolated_namespaces();
    assert forall|i: int| 0 <= i < all.len() implies all[i] != Namespace::User by {}
}

} // verus!
