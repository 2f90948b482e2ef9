//! How system information is worded: the name of the operating system, the
//! machine architecture in the vocabulary of a toolchain, and the line that
//! a set of flags selects.

use vstd::prelude::*;
use vstd::string::StringExecFns;
use crate::text::{begins_with, join_spaces, join_with_spaces, same_text, starts_with};

verus! {

/// The vocabulary in which a machine architecture is named.
#[allow(non_camel_case_types)]
#[derive(Debug, Clone, Copy, PartialEq, Eq, Structural)]
pub enum IsaFormat {
    /// Whatever the system returns.
    default,
    /// The names that Docker uses.
    docker,
    /// The names that LLVM uses.
    llvm,
    /// The names that Rust uses.
    rust,
    /// The most basic names, such as `x86` and `arm`.
    generic,
}

/// What the kernel says of the system.
#[derive(Debug)]
pub struct UtsName {
    pub sysname: String,
    pub nodename: String,
    pub release: String,
    pub version: String,
    pub machine: String,
}

/// What the filesystem shows of the kind of system this is.
#[derive(Debug, Clone, Copy, PartialEq, Eq, Structural)]
pub struct SystemMarkers {
    /// A file that only Android has is there.
    pub android: bool,
    /// A file that only a GNU distribution has is there.
    pub gnu: bool,
}

/// The paths whose presence marks an Android system.
pub open spec fn android_markers() -> Seq<Seq<char>> {
    seq!["/system/bin/adb"@, "/system/build.prop"@]
}

/// The paths whose presence marks a GNU system.
pub open spec fn gnu_markers() -> Seq<Seq<char>> {
    seq!["/usr/bin/gnu-gcc"@, "/etc/debian_version"@, "/etc/redhat-release"@]
}

/// The machine name in the vocabulary of `format`. A name that the
/// vocabulary has no word for stays as it is.
pub open spec fn machine_arch(machine: Seq<char>, format: IsaFormat) -> Seq<char> {
    match format {
        IsaFormat::default => machine,
        IsaFormat::docker => if machine == "x86_64"@ {
            "amd64"@
        } else if machine == "aarch64"@ {
            "arm64"@
        } else if machine == "armv7l"@ {
            "armhf"@
        } else if machine == "powerpc64le"@ {
            "ppc64le"@
        } else if machine == "i386"@ || machine == "i686"@ {
            "386"@
        } else {
            machine
        },
        IsaFormat::rust | IsaFormat::llvm => if machine == "amd64"@ {
            "x86_64"@
        } else if machine == "arm64"@ {
            "aarch64"@
        } else if machine == "armhf"@ {
            "armv7"@
        } else if machine == "ppc64le"@ {
            "powerpc64le"@
        } else if machine == "386"@ {
            "i686"@
        } else {
            machine
        },
        IsaFormat::generic => if machine == "x86_64"@ || machine == "amd64"@ || machine
            == "i686"@ || machine == "i386"@ {
            "x86"@
        } else if machine == "aarch64"@ || machine == "arm64"@ || machine == "armv7l"@ {
            "arm"@
        } else if machine == "powerpc64le"@ || machine == "ppc64le"@ {
            "ppc"@
        } else {
            machine
        },
    }
}

/// The name of the operating system, from the kernel's name, the machine
/// and the markers found.
pub open spec fn os_name(
    sysname: Seq<char>,
    machine: Seq<char>,
    markers: SystemMarkers,
) -> Seq<char> {
    if sysname == "Linux"@ {
        if markers.android {
            "Android"@
        } else if markers.gnu {
            "GNU/Linux"@
        } else {
            "Linux"@
        }
    } else if sysname == "Darwin"@ {
        if begins_with(machine, "iPhone"@) || begins_with(machine, "iPad"@) {
            "iOS"@
        } else {
            "Darwin"@
        }
    } else if sysname == "SunOS"@ {
        "Solaris"@
    } else if sysname == "Windows"@ {
        "\u{1F4A9}"@
    } else {
        sysname
    }
}

/// Which pieces of information a caller asked for.
#[derive(Debug, Clone, Copy, PartialEq, Eq, Structural)]
pub struct UnameFlags {
    pub all: bool,
    pub kernel: bool,
    pub nodename: bool,
    pub kernel_release: bool,
    pub kernel_version: bool,
    pub machine: bool,
    pub operating_system: bool,
}

/// The mathematical content of a [`UtsName`].
pub ghost struct UtsNameView {
    pub sysname: Seq<char>,
    pub nodename: Seq<char>,
    pub release: Seq<char>,
    pub version: Seq<char>,
    pub machine: Seq<char>,
}

impl View for UtsName {
    type V = UtsNameView;

    open spec fn view(&self) -> UtsNameView {
        UtsNameView {
            sysname: self.sysname@,
            nodename: self.nodename@,
            release: self.release@,
            version: self.version@,
            machine: self.machine@,
        }
    }
}

/// `part` where `wanted`, nothing where not.
pub open spec fn optional_part(wanted: bool, part: Seq<char>) -> Seq<Seq<char>> {
    if wanted {
        seq![part]
    } else {
        Seq::empty()
    }
}

/// The pieces that `flags` selects, in the order in which they are
/// printed: everything for `all`, the kernel's name where nothing is
/// selected.
pub open spec fn selected_parts(
    uts: UtsNameView,
    flags: UnameFlags,
    markers: SystemMarkers,
    format: IsaFormat,
) -> Seq<Seq<char>> {
    let arch = machine_arch(uts.machine, format);
    let os = os_name(uts.sysname, uts.machine, markers);
    if flags.all {
        seq![uts.sysname, uts.nodename, uts.release, uts.version, arch, os]
    } else if !flags.kernel && !flags.nodename && !flags.kernel_release && !flags.kernel_version
        && !flags.machine && !flags.operating_system {
        seq![uts.sysname]
    } else {
        optional_part(flags.kernel, uts.sysname) + optional_part(flags.nodename, uts.nodename)
            + optional_part(flags.kernel_release, uts.release) + optional_part(
            flags.kernel_version,
            uts.version,
        ) + optional_part(flags.machine, arch) + optional_part(flags.operating_system, os)
    }
}

/// The paths whose presence marks an Android system.
pub fn android_marker_paths() -> (paths: Vec<&'static str>)
    ensures
        paths.deep_view() == android_markers(),
{
    let mut paths: Vec<&'static str> = Vec::new();
    paths.push("/system/bin/adb");
    paths.push("/system/build.prop");
    assert(paths.deep_view() =~= android_markers());
    paths
}

/// The paths whose presence marks a GNU system.
pub fn gnu_marker_paths() -> (paths: Vec<&'static str>)
    ensures
        paths.deep_view() == gnu_markers(),
{
    let mut paths: Vec<&'static str> = Vec::new();
    paths.push("/usr/bin/gnu-gcc");
    paths.push("/etc/debian_version");
    paths.push("/etc/redhat-release");
    assert(paths.deep_view() =~= gnu_markers());
    paths
}

/// Reads what the kernel says of the system, through
/// `rustix::system::uname`, and keeps the five names as text. They are the
/// machine's: nothing is claimed of them.
#[verifier::external_body]
fn kernel_names() -> (uts: UtsName) {
    let uname = rustix::system::uname();
    UtsName {
        sysname: uname.sysname().to_string_lossy().into_owned(),
        nodename: uname.nodename().to_string_lossy().into_owned(),
        release: uname.release().to_string_lossy().into_owned(),
        version: uname.version().to_string_lossy().into_owned(),
        machine: uname.machine().to_string_lossy().into_owned(),
    }
}

/// The line that `flags` selects of this system: what `format_output`
/// writes for the names that the kernel gives.
pub fn uname_line(flags: UnameFlags, markers: SystemMarkers, isa_format: IsaFormat) -> (line: String)
    ensures
        exists|uts: UtsNameView|
            line@ == join_with_spaces(selected_parts(uts, flags, markers, isa_format)),
{
    let uts = kernel_names();
    let line = uts.format_output(
        flags.all,
        flags.kernel,
        flags.nodename,
        flags.kernel_release,
        flags.kernel_version,
        flags.machine,
        flags.operating_system,
        isa_format,
        markers,
    );
    assert(line@ == join_with_spaces(selected_parts(uts@, flags, markers, isa_format)));
    line
}

impl UtsName {
    /// The name of the operating system.
    pub fn get_os_string(&self, markers: SystemMarkers) -> (name: String)
        ensures
            name@ == os_name(self.sysname@, self.machine@, markers),
    {
        let sysname = self.sysname.as_str();
        if same_text(sysname, "Linux") {
            if markers.android {
                String::from_str("Android")
            } else if markers.gnu {
                String::from_str("GNU/Linux")
            } else {
                String::from_str("Linux")
            }
        } else if same_text(sysname, "Darwin") {
            if starts_with(self.machine.as_str(), "iPhone") || starts_with(
                self.machine.as_str(),
                "iPad",
            ) {
                String::from_str("iOS")
            } else {
                String::from_str("Darwin")
            }
        } else if same_text(sysname, "SunOS") {
            String::from_str("Solaris")
        } else if same_text(sysname, "Windows") {
            String::from_str("\u{1F4A9}")
        } else {
            self.sysname.clone()
        }
    }

    /// The machine name in the vocabulary of `isa_format`.
    pub fn format_machine_arch(&self, isa_format: IsaFormat) -> (arch: String)
        ensures
            arch@ == machine_arch(self.machine@, isa_format),
    {
        let native = self.machine.as_str();
        match isa_format {
            IsaFormat::default => self.machine.clone(),
            IsaFormat::docker => {
                if same_text(native, "x86_64") {
                    String::from_str("amd64")
                } else if same_text(native, "aarch64") {
                    String::from_str("arm64")
                } else if same_text(native, "armv7l") {
                    String::from_str("armhf")
                } else if same_text(native, "powerpc64le") {
                    String::from_str("ppc64le")
                } else if same_text(native, "i386") || same_text(native, "i686") {
                    String::from_str("386")
                } else {
                    self.machine.clone()
                }
            },
            IsaFormat::rust | IsaFormat::llvm => {
                if same_text(native, "amd64") {
                    String::from_str("x86_64")
                } else if same_text(native, "arm64") {
                    String::from_str("aarch64")
                } else if same_text(native, "armhf") {
                    String::from_str("armv7")
                } else if same_text(native, "ppc64le") {
                    String::from_str("powerpc64le")
                } else if same_text(native, "386") {
                    String::from_str("i686")
                } else {
                    self.machine.clone()
                }
            },
            IsaFormat::generic => {
                if same_text(native, "x86_64") || same_text(native, "amd64") || same_text(
                    native,
                    "i686",
                ) || same_text(native, "i386") {
                    String::from_str("x86")
                } else if same_text(native, "aarch64") || same_text(native, "arm64") || same_text(
                    native,
                    "armv7l",
                ) {
                    String::from_str("arm")
                } else if same_text(native, "powerpc64le") || same_text(native, "ppc64le") {
                    String::from_str("ppc")
                } else {
                    self.machine.clone()
                }
            },
        }
    }

    /// The line that the flags select: the selected pieces in their fixed
    /// order, with one space between neighbours.
    pub fn format_output(
        &self,
        all: bool,
        kernel: bool,
        nodename: bool,
        kernel_release: bool,
        kernel_version: bool,
        machine: bool,
        operating_system: bool,
        isa_format: IsaFormat,
        markers: SystemMarkers,
    ) -> (line: String)
        ensures
            line@ == join_with_spaces(
                selected_parts(
                    self@,
                    (UnameFlags {
                        all,
                        kernel,
                        nodename,
                        kernel_release,
                        kernel_version,
                        machine,
                        operating_system,
                    }),
                    markers,
                    isa_format,
                ),
            ),
    {
        let flags = UnameFlags {
            all,
            kernel,
            nodename,
            kernel_release,
            kernel_version,
            machine,
            operating_system,
        };
        let mut parts: Vec<String> = Vec::new();
        let nothing_selected = !flags.kernel && !flags.nodename && !flags.kernel_release
            && !flags.kernel_version && !flags.machine && !flags.operating_system;
        if flags.all {
            parts.push(self.sysname.clone());
            parts.push(self.nodename.clone());
            parts.push(self.release.clone());
            parts.push(self.version.clone());
            parts.push(self.format_machine_arch(isa_format));
            parts.push(self.get_os_string(markers));
        } else if nothing_selected {
            parts.push(self.sysname.clone());
        } else {
            if flags.kernel {
                parts.push(self.sysname.clone());
            }
            if flags.nodename {
                parts.push(self.nodename.clone());
            }
            if flags.kernel_release {
                parts.push(self.release.clone());
            }
            if flags.kernel_version {
                parts.push(self.version.clone());
            }
            if flags.machine {
                parts.push(self.format_machine_arch(isa_format));
            }
            if flags.operating_system {
                parts.push(self.get_os_string(markers));
            }
        }
        assert(parts.deep_view() =~= selected_parts(self@, flags, markers, isa_format));
        join_spaces(&parts)
    }
}

} // verus!
