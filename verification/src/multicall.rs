//! One binary under many names: which applets there are, how a call under
//! an applet's name is read, and what installing the applets takes.

use vstd::prelude::*;
use vstd::string::StringExecFns;
use crate::path_names::{basename, last_component};
use crate::text::{ends_with, finishes_with, join_spaces, join_with_spaces};

verus! {

/// The names under which the binary can be installed.
pub open spec fn installable() -> Seq<Seq<char>> {
    seq![
        "arch"@,
        "basename"@,
        "cat"@,
        "clear"@,
        "chroot"@,
        "dirname"@,
        "echo"@,
        "env"@,
        "expand"@,
        "false"@,
        "ls"@,
        "mkdir"@,
        "sh"@,
        "sleep"@,
        "stem"@,
        "true"@,
        "uname"@,
        "which"@,
        "yes"@,
    ]
}

/// The names under which the binary can be installed.
pub fn installable_bins() -> (bins: Vec<&'static str>)
    ensures
        bins.deep_view() == installable(),
{
    let mut bins: Vec<&'static str> = Vec::new();
    bins.push("arch");
    bins.push("basename");
    bins.push("cat");
    bins.push("clear");
    bins.push("chroot");
    bins.push("dirname");
    bins.push("echo");
    bins.push("env");
    bins.push("expand");
    bins.push("false");
    bins.push("ls");
    bins.push("mkdir");
    bins.push("sh");
    bins.push("sleep");
    bins.push("stem");
    bins.push("true");
    bins.push("uname");
    bins.push("which");
    bins.push("yes");
    assert(bins.deep_view() =~= installable());
    bins
}

/// Whether a binary of this name was called as an applet: its name ends
/// with the name of one.
pub open spec fn called_as_applet(binary_name: Seq<char>) -> bool {
    exists|i: int|
        0 <= i < installable().len() && finishes_with(binary_name, #[trigger] installable()[i])
}

/// The arguments as the command line parser is to see them. A call under
/// an applet's name gets the last component of that name put in as the
/// subcommand; any other call stays as it is.
pub open spec fn shifted(args: Seq<Seq<char>>) -> Seq<Seq<char>> {
    if args.len() > 0 && called_as_applet(args[0]) {
        seq![args[0], last_component(args[0])] + args.skip(1)
    } else {
        args
    }
}

/// Whether a binary of this name was called as an applet.
pub fn is_applet_call(binary_name: &str) -> (r: bool)
    ensures
        r == called_as_applet(binary_name@),
{
    let bins = installable_bins();
    let mut i: usize = 0;
    while i < bins.len()
        invariant
            i <= bins.len(),
            bins.deep_view() == installable(),
            forall|k: int| 0 <= k < i ==> !finishes_with(binary_name@, #[trigger] installable()[k]),
        decreases bins.len() - i,
    {
        assert(bins.deep_view()[i as int] == bins@[i as int]@);
        if ends_with(binary_name, bins[i]) {
            return true;
        }
        i += 1;
    }
    false
}

/// Puts the subcommand in where the binary was called under an applet's
/// name.
pub fn shift_args(args: Vec<String>) -> (shifted_args: Vec<String>)
    ensures
        shifted_args.deep_view() == shifted(args.deep_view()),
{
    if args.len() == 0 {
        return args;
    }
    assert(args.deep_view()[0] == args@[0]@);
    if !is_applet_call(args[0].as_str()) {
        return args;
    }
    let mut out: Vec<String> = Vec::new();
    out.push(args[0].clone());
    out.push(basename(args[0].as_str(), None));
    let mut i: usize = 1;
    while i < args.len()
        invariant
            1 <= i <= args.len(),
            out.deep_view() == seq![args@[0]@, last_component(args@[0]@)] + args.deep_view().skip(
                1,
            ).take(i - 1),
        decreases args.len() - i,
    {
        let ghost before = out.deep_view();
        out.push(args[i].clone());
        assert(out.deep_view() =~= before.push(args@[i as int]@));
        assert(args.deep_view().skip(1).take(i as int) =~= args.deep_view().skip(1).take(i - 1).push(
            args@[i as int]@,
        ));
        i += 1;
    }
    assert(args.deep_view().skip(1).take(args.len() - 1) =~= args.deep_view().skip(1));
    out
}

/// The applets' names on one line.
pub fn applet_list() -> (line: String)
    ensures
        line@ == join_with_spaces(installable()),
{
    let bins = installable_bins();
    let mut names: Vec<String> = Vec::new();
    let mut i: usize = 0;
    while i < bins.len()
        invariant
            i <= bins.len(),
            names@.len() == i,
            forall|k: int| 0 <= k < i ==> (#[trigger] names@[k])@ == bins@[k]@,
        decreases bins.len() - i,
    {
        names.push(String::from_str(bins[i]));
        i += 1;
    }
    assert(names.deep_view() =~= bins.deep_view());
    join_spaces(&names)
}

/// The command that runs the installation with more privilege: `doas`
/// where it is there, else `sudo` where that is there, else none.
pub open spec fn escalation(doas: bool, sudo: bool) -> Option<Seq<char>> {
    if doas {
        Some("doas "@)
    } else if sudo {
        Some("sudo "@)
    } else {
        None
    }
}

/// Picks the command that runs the installation with more privilege.
pub fn escalation_prefix(doas: bool, sudo: bool) -> (prefix: Option<&'static str>)
    ensures
        prefix.deep_view() == escalation(doas, sudo),
{
    if doas {
        Some("doas ")
    } else if sudo {
        Some("sudo ")
    } else {
        None
    }
}

/// The line of the install script that links applet `bin` to the binary.
pub open spec fn install_line(prefix: Seq<char>, exe: Seq<char>, bin: Seq<char>) -> Seq<char> {
    prefix + "ln -sf "@ + exe + " $RIZZYBOX_INSTALL_DIR/"@ + bin
}

/// The lines of the install script that link the applets to the binary,
/// one for each applet.
pub fn install_lines(prefix: &str, exe: &str) -> (lines: Vec<String>)
    ensures
        lines.len() == installable().len(),
        forall|i: int|
            0 <= i < lines.len() ==> (#[trigger] lines@[i])@ == install_line(
                prefix@,
                exe@,
                installable()[i],
            ),
{
    let bins = installable_bins();
    let mut lines: Vec<String> = Vec::new();
    let mut i: usize = 0;
    while i < bins.len()
        invariant
            i <= bins.len(),
            bins.deep_view() == installable(),
            lines@.len() == i,
            forall|k: int|
                0 <= k < i ==> (#[trigger] lines@[k])@ == install_line(
                    prefix@,
                    exe@,
                    installable()[k],
                ),
        decreases bins.len() - i,
    {
        assert(bins.deep_view()[i as int] == bins@[i as int]@);
        let line = String::from_str(prefix).concat("ln -sf ").concat(exe).concat(
            " $RIZZYBOX_INSTALL_DIR/",
        ).concat(bins[i]);
        lines.push(line);
        i += 1;
    }
    lines
}

/// The container engine to use: `docker` where it is there, else `podman`
/// where that is there, else none.
pub fn container_engine(docker: bool, podman: bool) -> (engine: Option<&'static str>)
    ensures
        engine.deep_view() == if docker {
            Some("docker"@)
        } else if podman {
            Some("podman"@)
        } else {
            None
        },
{
    if docker {
        Some("docker")
    } else if podman {
        Some("podman")
    } else {
        None
    }
}

/// All texts of `parts` in a row.
pub open spec fn concatenated(parts: Seq<Seq<char>>) -> Seq<char>
    decreases parts.len(),
{
    if parts.len() == 0 {
        Seq::empty()
    } else {
        concatenated(parts.drop_last()) + parts.last()
    }
}

/// What the binary is told inside a debug container: the command itself
/// where it has more than one word, and else to install itself and open a
/// shell.
pub open spec fn container_args(command: Seq<Seq<char>>) -> Seq<Seq<char>> {
    if command.len() > 1 {
        command
    } else {
        seq![concatenated(command), "--install-self"@, "/tmp/rbin"@]
    }
}

/// Decides what the binary is told inside a debug container.
pub fn container_command(command: Vec<String>) -> (args: Vec<String>)
    ensures
        args.deep_view() == container_args(command.deep_view()),
{
    if command.len() > 1 {
        return command;
    }
    let mut first = String::new();
    let mut i: usize = 0;
    assert(command.deep_view().take(0) =~= Seq::<Seq<char>>::empty());
    while i < command.len()
        invariant
            i <= command.len(),
            first@ == concatenated(command.deep_view().take(i as int)),
        decreases command.len() - i,
    {
        let ghost head = command.deep_view().take(i + 1);
        assert(head.drop_last() =~= command.deep_view().take(i as int));
        assert(head.last() == command@[i as int]@);
        first.append(command[i].as_str());
        i += 1;
    }
    assert(command.deep_view().take(command.len() as int) =~= command.deep_view());
    let mut args: Vec<String> = Vec::new();
    args.push(first);
    args.push(String::from_str("--install-self"));
    args.push(String::from_str("/tmp/rbin"));
    assert(args.deep_view() =~= container_args(command.deep_view()));
    args
}

} // verus!
