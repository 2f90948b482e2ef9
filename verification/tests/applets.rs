use rizzybox::applets::{
    files_to_print, plan_link, plan_repetition, yes_text, LinkPlan, Repetition, CLEAR_SEQUENCE,
};
use rizzybox::env_listing::{parse_assignments, render_environment};
use rizzybox::expand::{expand_text, file_to_read, filler_widths};
use rizzybox::kv::KVError;
use rizzybox::listing::{list_names, name_to_list, rank, Rank};
use rizzybox::multicall::{
    applet_list, container_command, container_engine, escalation_prefix, install_lines,
    installable_bins, is_applet_call, shift_args,
};
use rizzybox::nproc::{cores_to_report, nproc_count, MIN_CORES_ALLOWED};
use rizzybox::path_names::{basename, dirname, dirname_text, strip_trailing};
use rizzybox::pathmunge::{PathEnv, PathmungeCommand, DEFAULT_PATH};
use rizzybox::shell::{
    classify_line, prompt, split_words, CdCommand, CdError, ExitCommand, LineKind, PwdCommand,
    PwdForm,
};
use rizzybox::sleep::{parse_pause, Pause, PauseError};
use rizzybox::stem::{read_wordlist, stem_words, EngArticle, EngConsonant, Word};
use rizzybox::uname::{
    android_marker_paths, gnu_marker_paths, IsaFormat, SystemMarkers, UnameFlags, UtsName,
};
use rizzybox::which::{candidate_paths, report_findings, FALLBACK_PATH};

fn strings(words: &[&str]) -> Vec<String> {
    words.iter().map(|w| w.to_string()).collect()
}

fn uts(sysname: &str, machine: &str) -> UtsName {
    UtsName {
        sysname: sysname.to_string(),
        nodename: "box".to_string(),
        release: "6.1.0".to_string(),
        version: "#1 SMP".to_string(),
        machine: machine.to_string(),
    }
}

const NO_MARKERS: SystemMarkers = SystemMarkers { android: false, gnu: false };

const NO_FLAGS: UnameFlags = UnameFlags {
    all: false,
    kernel: false,
    nodename: false,
    kernel_release: false,
    kernel_version: false,
    machine: false,
    operating_system: false,
};

#[test]
fn machine_names_are_translated() {
    let x86 = uts("Linux", "x86_64");
    assert_eq!(x86.format_machine_arch(IsaFormat::default), "x86_64");
    assert_eq!(x86.format_machine_arch(IsaFormat::docker), "amd64");
    assert_eq!(x86.format_machine_arch(IsaFormat::rust), "x86_64");
    assert_eq!(x86.format_machine_arch(IsaFormat::llvm), "x86_64");
    assert_eq!(x86.format_machine_arch(IsaFormat::generic), "x86");
    assert_eq!(uts("Linux", "aarch64").format_machine_arch(IsaFormat::docker), "arm64");
    assert_eq!(uts("Linux", "armv7l").format_machine_arch(IsaFormat::docker), "armhf");
    assert_eq!(uts("Linux", "powerpc64le").format_machine_arch(IsaFormat::docker), "ppc64le");
    assert_eq!(uts("Linux", "i386").format_machine_arch(IsaFormat::docker), "386");
    assert_eq!(uts("Linux", "i686").format_machine_arch(IsaFormat::docker), "386");
    assert_eq!(uts("Linux", "riscv64").format_machine_arch(IsaFormat::docker), "riscv64");
    assert_eq!(uts("Linux", "amd64").format_machine_arch(IsaFormat::rust), "x86_64");
    assert_eq!(uts("Linux", "arm64").format_machine_arch(IsaFormat::llvm), "aarch64");
    assert_eq!(uts("Linux", "armhf").format_machine_arch(IsaFormat::rust), "armv7");
    assert_eq!(uts("Linux", "ppc64le").format_machine_arch(IsaFormat::rust), "powerpc64le");
    assert_eq!(uts("Linux", "386").format_machine_arch(IsaFormat::rust), "i686");
    assert_eq!(uts("Linux", "arm64").format_machine_arch(IsaFormat::generic), "arm");
    assert_eq!(uts("Linux", "ppc64le").format_machine_arch(IsaFormat::generic), "ppc");
    assert_eq!(uts("Linux", "s390x").format_machine_arch(IsaFormat::generic), "s390x");
}

#[test]
fn operating_systems_are_named() {
    let linux = uts("Linux", "x86_64");
    assert_eq!(linux.get_os_string(NO_MARKERS), "Linux");
    assert_eq!(linux.get_os_string(SystemMarkers { android: false, gnu: true }), "GNU/Linux");
    assert_eq!(linux.get_os_string(SystemMarkers { android: true, gnu: true }), "Android");
    assert_eq!(uts("Darwin", "iPhone12,1").get_os_string(NO_MARKERS), "iOS");
    assert_eq!(uts("Darwin", "iPad8,1").get_os_string(NO_MARKERS), "iOS");
    assert_eq!(uts("Darwin", "arm64").get_os_string(NO_MARKERS), "Darwin");
    assert_eq!(uts("SunOS", "i86pc").get_os_string(NO_MARKERS), "Solaris");
    assert_eq!(uts("FreeBSD", "amd64").get_os_string(NO_MARKERS), "FreeBSD");
    assert_eq!(uts("Windows", "x86_64").get_os_string(NO_MARKERS), "\u{1F4A9}");
    assert_eq!(uts("Plan9", "x86_64").get_os_string(SystemMarkers { android: true, gnu: true }), "Plan9");
    assert_eq!(android_marker_paths(), vec!["/system/bin/adb", "/system/build.prop"]);
    assert_eq!(
        gnu_marker_paths(),
        vec!["/usr/bin/gnu-gcc", "/etc/debian_version", "/etc/redhat-release"]
    );
}

fn line(u: &UtsName, flags: UnameFlags, markers: SystemMarkers, format: IsaFormat) -> String {
    u.format_output(
        flags.all,
        flags.kernel,
        flags.nodename,
        flags.kernel_release,
        flags.kernel_version,
        flags.machine,
        flags.operating_system,
        format,
        markers,
    )
}

#[test]
fn uname_lines_follow_the_flags() {
    let u = uts("Linux", "x86_64");
    assert_eq!(line(&u, NO_FLAGS, NO_MARKERS, IsaFormat::default), "Linux");
    let all = UnameFlags { all: true, ..NO_FLAGS };
    assert_eq!(
        line(&u, all, SystemMarkers { android: false, gnu: true }, IsaFormat::docker),
        "Linux box 6.1.0 #1 SMP amd64 GNU/Linux"
    );
    let some = UnameFlags { nodename: true, machine: true, ..NO_FLAGS };
    assert_eq!(line(&u, some, NO_MARKERS, IsaFormat::generic), "box x86");
    let every = UnameFlags {
        all: false,
        kernel: true,
        nodename: true,
        kernel_release: true,
        kernel_version: true,
        machine: true,
        operating_system: true,
    };
    assert_eq!(
        line(&u, every, NO_MARKERS, IsaFormat::default),
        "Linux box 6.1.0 #1 SMP x86_64 Linux"
    );
    let os_only = UnameFlags { operating_system: true, ..NO_FLAGS };
    assert_eq!(line(&u, os_only, NO_MARKERS, IsaFormat::default), "Linux");
}

#[test]
fn search_paths_are_edited() {
    let env = PathEnv::from_text(" /bin:/usr/bin:/opt/bin\n");
    assert_eq!(env.paths, vec!["/bin", "/usr/bin", "/opt/bin"]);
    assert_eq!(env.to_text(), "/bin:/usr/bin:/opt/bin");
    let after = |path: &str, force: bool| env.munge(&PathmungeCommand::After { path: path.to_string(), force });
    let before = |path: &str, force: bool| env.munge(&PathmungeCommand::Before { path: path.to_string(), force });
    assert_eq!(after("/new", false), "/bin:/usr/bin:/opt/bin:/new");
    assert_eq!(after("/bin", false), "/bin:/usr/bin:/opt/bin");
    assert_eq!(after("/bin", true), "/usr/bin:/opt/bin:/bin");
    assert_eq!(after("", true), "/bin:/usr/bin:/opt/bin:");
    assert_eq!(before("/new", true), "/new:/bin:/usr/bin:/opt/bin");
    assert_eq!(before("/opt/bin", false), "/bin:/usr/bin:/opt/bin");
    assert_eq!(before("/opt/bin", true), "/opt/bin:/bin:/usr/bin");
    assert_eq!(env.munge(&PathmungeCommand::Delete { path: "/usr/bin".to_string() }), "/bin:/opt/bin");
    assert_eq!(env.munge(&PathmungeCommand::Delete { path: "/none".to_string() }), "/bin:/usr/bin:/opt/bin");
    let doubled = PathEnv::from_text("/a:/b:/a");
    assert_eq!(doubled.munge(&PathmungeCommand::Delete { path: "/a".to_string() }), "/b");
    assert_eq!(doubled.munge(&PathmungeCommand::After { path: "/a".to_string(), force: true }), "/b:/a");
    assert!(doubled.holds("/b"));
    assert!(!doubled.holds("/c"));
    assert_eq!(doubled.others("/a"), vec!["/b"]);
    assert_eq!(PathEnv::from_text("").paths, vec![""]);
    assert_eq!(DEFAULT_PATH, "/bin:/sbin:/usr/bin:/usr/sbin");
}

#[test]
fn shell_lines_are_read() {
    for line in ["", "   ", "cd /tmp", "  exit   3 ", "a\tb\u{a0}c\n", "echo  'x  y'"] {
        assert_eq!(split_words(line), line.split_whitespace().collect::<Vec<&str>>(), "line {:?}", line);
    }
    assert_eq!(classify_line(&strings(&[])), LineKind::Empty);
    assert_eq!(classify_line(&strings(&["cd", "/tmp"])), LineKind::Cd);
    assert_eq!(classify_line(&strings(&["exit"])), LineKind::Exit);
    assert_eq!(classify_line(&strings(&["pwd", "-P"])), LineKind::Pwd);
    assert_eq!(classify_line(&strings(&["("])), LineKind::OpenParen);
    assert_eq!(classify_line(&strings(&[")"])), LineKind::CloseParen);
    assert_eq!(classify_line(&strings(&["ls", "-l"])), LineKind::External);
    assert_eq!(classify_line(&strings(&["CD"])), LineKind::External);
}

#[test]
fn shell_builtins_decide() {
    let home = Some("/home/me".to_string());
    let old = Some("/tmp".to_string());
    let cd = |dir: &str| CdCommand { dir: dir.to_string() };
    assert_eq!(CdCommand::default().dir, "$HOME");
    assert_eq!(CdCommand::default().target(home.clone(), old.clone()), Ok("/home/me".to_string()));
    assert_eq!(cd("~").target(home.clone(), None), Ok("/home/me".to_string()));
    assert_eq!(cd("~").target(None, old.clone()), Err(CdError::HomeNotSet));
    assert_eq!(cd("-").target(home.clone(), old.clone()), Ok("/tmp".to_string()));
    assert_eq!(cd("-").target(home.clone(), None), Err(CdError::OldPwdNotSet));
    assert_eq!(cd(".").target(None, None), Ok(".".to_string()));
    assert_eq!(cd("..").target(None, None), Ok("..".to_string()));
    assert_eq!(cd("/var/log").target(None, None), Ok("/var/log".to_string()));
    assert_eq!(ExitCommand::default().code, 0);
    assert_eq!(PwdCommand::default(), PwdCommand { logical: true, physical: false });
    assert_eq!(PwdCommand::default().form(), PwdForm::Logical);
    assert_eq!(PwdCommand { logical: true, physical: true }.form(), PwdForm::Logical);
    assert_eq!(PwdCommand { logical: false, physical: true }.form(), PwdForm::Physical);
    assert_eq!(PwdCommand { logical: false, physical: false }.form(), PwdForm::Logical);
    assert_eq!(prompt(true, Some("$ ".to_string())), "# ");
    assert_eq!(prompt(false, Some("$ ".to_string())), "$ ");
    assert_eq!(prompt(false, None), "\u{ce}\u{bb} ");
}

#[test]
fn tabs_are_expanded() {
    assert_eq!(expand_text("a\tb", &strings(&["4"])), "a    b\n");
    assert_eq!(expand_text("\t", &strings(&["2", "1"])), "   \n");
    assert_eq!(expand_text("a\tb\t", &strings(&[])), "ab\n");
    assert_eq!(expand_text("a\tb", &strings(&["2", "+3", "x", "5"])), "a     b\n");
    assert_eq!(expand_text("a\tb", &strings(&["x", "5"])), "ab\n");
    assert_eq!(expand_text("", &strings(&["8"])), "\n");
    assert_eq!(filler_widths(&strings(&["2", "3", "/4", "5"])), vec![2, 3]);
    assert_eq!(file_to_read("-"), "/dev/stdin");
    assert_eq!(file_to_read("notes.txt"), "notes.txt");
}

#[test]
fn cores_are_counted() {
    assert_eq!(MIN_CORES_ALLOWED, 1);
    assert_eq!(cores_to_report(false, 0, None, None, 8, 4), 8);
    assert_eq!(cores_to_report(true, 0, None, None, 8, 4), 4);
    assert_eq!(cores_to_report(true, 0, Some(2), Some(3), 8, 4), 4);
    assert_eq!(cores_to_report(false, 0, Some(2), Some(3), 8, 4), 3);
    assert_eq!(cores_to_report(false, 0, None, Some(99), 8, 4), 99);
    assert_eq!(cores_to_report(false, 0, Some(2), None, 8, 4), 2);
    assert_eq!(cores_to_report(false, 0, Some(8), None, 8, 4), 8);
    assert_eq!(cores_to_report(false, 0, Some(20), None, 8, 4), 8);
    assert_eq!(cores_to_report(false, 3, None, None, 8, 4), 5);
    assert_eq!(cores_to_report(false, 8, None, None, 8, 4), 1);
    assert_eq!(cores_to_report(false, 9, None, None, 8, 4), 1);
    assert_eq!(cores_to_report(false, 0, None, Some(0), 8, 4), 1);
    assert!(nproc_count(false, 0, None, None) >= 1);
    assert!(nproc_count(true, usize::MAX, None, None) == 1);
    assert_eq!(nproc_count(false, 2, None, Some(12)), 10);
}

#[test]
fn commands_are_searched_along_the_path() {
    assert_eq!(candidate_paths("/bin:/usr/bin", "ls"), vec!["/bin/ls", "/usr/bin/ls"]);
    assert_eq!(candidate_paths("", "ls"), vec!["/ls"]);
    assert_eq!(candidate_paths("/bin::", "ls"), vec!["/bin/ls", "/ls", "/ls"]);
    assert_eq!(FALLBACK_PATH, "/bin:/usr/bin");
    let probed = vec![
        ("/a/ls".to_string(), false),
        ("/b/ls".to_string(), true),
        ("/c/ls".to_string(), true),
    ];
    let first = report_findings(&probed, false);
    assert_eq!(first.shown, vec!["/b/ls"]);
    assert_eq!(first.found, Some("/b/ls".to_string()));
    let all = report_findings(&probed, true);
    assert_eq!(all.shown, vec!["/b/ls", "/c/ls"]);
    assert_eq!(all.found, None);
    let none = report_findings(&vec![("/a/ls".to_string(), false)], false);
    assert!(none.shown.is_empty());
    assert_eq!(none.found, None);
    let empty = report_findings(&Vec::new(), true);
    assert!(empty.shown.is_empty());
}

#[test]
fn applet_calls_are_shifted() {
    assert_eq!(installable_bins().len(), 19);
    assert!(installable_bins().contains(&"chroot"));
    assert!(is_applet_call("/usr/local/bin/echo"));
    assert!(is_applet_call("echo"));
    assert!(is_applet_call("/tmp/myecho"));
    assert!(!is_applet_call("/usr/bin/rizzybox"));
    assert!(!is_applet_call(""));
    assert_eq!(
        shift_args(strings(&["/tmp/echo", "using `echo` like a normal binary B-)"])),
        vec!["/tmp/echo", "echo", "using `echo` like a normal binary B-)"]
    );
    assert_eq!(shift_args(strings(&["/bin/rizzybox", "echo", "hi"])), vec!["/bin/rizzybox", "echo", "hi"]);
    assert_eq!(shift_args(strings(&["uname"])), vec!["uname", "uname"]);
    assert_eq!(shift_args(strings(&[])), Vec::<String>::new());
    assert_eq!(
        applet_list(),
        "arch basename cat clear chroot dirname echo env expand false ls mkdir sh sleep stem true uname which yes"
    );
}

#[test]
fn installation_is_scripted() {
    assert_eq!(escalation_prefix(true, true), Some("doas "));
    assert_eq!(escalation_prefix(false, true), Some("sudo "));
    assert_eq!(escalation_prefix(false, false), None);
    let lines = install_lines("sudo ", "/opt/rizzybox");
    assert_eq!(lines.len(), 19);
    assert_eq!(lines[0], "sudo ln -sf /opt/rizzybox $RIZZYBOX_INSTALL_DIR/arch");
    assert_eq!(lines[18], "sudo ln -sf /opt/rizzybox $RIZZYBOX_INSTALL_DIR/yes");
    assert_eq!(install_lines("", "/x")[4], "ln -sf /x $RIZZYBOX_INSTALL_DIR/chroot");
    assert_eq!(container_engine(true, true), Some("docker"));
    assert_eq!(container_engine(false, true), Some("podman"));
    assert_eq!(container_engine(false, false), None);
    assert_eq!(container_command(strings(&["ls", "-l"])), vec!["ls", "-l"]);
    assert_eq!(container_command(strings(&["sh"])), vec!["sh", "--install-self", "/tmp/rbin"]);
    assert_eq!(container_command(strings(&[])), vec!["", "--install-self", "/tmp/rbin"]);
}

#[test]
fn environments_are_listed() {
    let vars = vec![("HOME".to_string(), "/root".to_string()), ("EMPTY".to_string(), String::new())];
    assert_eq!(render_environment(&vars, false), "HOME=/root\nEMPTY=\n");
    assert_eq!(render_environment(&vars, true), "HOME=/rootEMPTY=");
    assert_eq!(render_environment(&Vec::new(), false), "");
    assert_eq!(
        parse_assignments(&strings(&["A=1", "B=x=y", "="])),
        Ok(vec![
            ("A".to_string(), "1".to_string()),
            ("B".to_string(), "x=y".to_string()),
            (String::new(), String::new())
        ])
    );
    assert_eq!(parse_assignments(&strings(&["A=1", "B"])), Err(KVError::MissingSeparator));
    assert_eq!(parse_assignments(&strings(&[])), Ok(Vec::new()));
}

#[test]
fn pauses_are_read() {
    assert_eq!(parse_pause("infinity"), Ok(Pause::Forever));
    assert_eq!(parse_pause("0"), Ok(Pause::Seconds(0)));
    assert_eq!(parse_pause("90"), Ok(Pause::Seconds(90)));
    assert_eq!(parse_pause("18446744073709551615"), Ok(Pause::Seconds(u64::MAX)));
    assert_eq!(parse_pause("18446744073709551616"), Err(PauseError::NotANumber));
    assert_eq!(parse_pause("1.5"), Err(PauseError::NotANumber));
    assert_eq!(parse_pause("Infinity"), Err(PauseError::NotANumber));
    assert_eq!(parse_pause(""), Err(PauseError::NotANumber));
}

#[test]
fn small_decisions() {
    assert_eq!(CLEAR_SEQUENCE, "\x1b[2J\x1b[H");
    assert_eq!(files_to_print(&strings(&[])), vec!["/dev/stdin"]);
    assert_eq!(files_to_print(&strings(&["a", "-"])), vec!["a", "-"]);
    assert_eq!(plan_repetition(3, true), Repetition::Times(3));
    assert_eq!(plan_repetition(0, true), Repetition::Timed);
    assert_eq!(plan_repetition(0, false), Repetition::Forever);
    assert_eq!(yes_text("yes please", 2), "yes please\nyes please\n");
    assert_eq!(yes_text("y", 0), "");
    assert_eq!(plan_link(true, true, true), LinkPlan { remove_destination: true, make_symlink: true });
    assert_eq!(plan_link(true, false, false), LinkPlan { remove_destination: false, make_symlink: false });
    assert_eq!(plan_link(false, true, true), LinkPlan { remove_destination: false, make_symlink: true });
}

#[test]
fn path_names_are_taken_apart() {
    assert_eq!(basename("/usr/bin/env", None), "env");
    assert_eq!(basename("env", None), "env");
    assert_eq!(basename("/usr/bin/", None), "");
    assert_eq!(basename("", None), "");
    let suffix = ".tar".to_string();
    assert_eq!(basename("/x/a.tar.tar", Some(&suffix)), "a");
    assert_eq!(basename("/x/.tar", Some(&suffix)), "");
    assert_eq!(basename("/x/a.tar.gz", Some(&suffix)), "a.tar.gz");
    let empty = String::new();
    assert_eq!(basename("/x/abc", Some(&empty)), "abc");
    for (name, suffix) in [("aaa", "a"), ("abab", "ab"), ("abc", "bc"), ("abc", ""), ("", "x"), ("xyz", "xyz")] {
        assert_eq!(strip_trailing(name.to_string(), suffix), name.trim_end_matches(suffix), "{:?} {:?}", name, suffix);
    }
    assert_eq!(dirname("/usr/bin/env"), "/usr/bin");
    assert_eq!(dirname("env"), ".");
    assert_eq!(dirname("/env"), "");
    assert_eq!(dirname("a/b/"), "a/b");
    assert_eq!(dirname_text(&strings(&["/usr/bin/env", "env"]), false), "/usr/bin\n.\n");
    assert_eq!(dirname_text(&strings(&["/usr/bin/env"]), true), "/usr/bin\0");
    assert_eq!(dirname_text(&strings(&[]), true), "");
}

#[test]
fn words_are_taken_apart() {
    assert_eq!(EngArticle::from_str("a"), Some(EngArticle::A));
    assert_eq!(EngArticle::from_str("An"), Some(EngArticle::An));
    assert_eq!(EngArticle::from_str("tHe"), Some(EngArticle::The));
    assert_eq!(EngArticle::from_str("then"), None);
    assert_eq!(EngArticle::from_str(""), None);
    assert_eq!(EngConsonant::from_char('g'), Some(EngConsonant::G));
    assert_eq!(EngConsonant::from_char('Z'), Some(EngConsonant::Z));
    assert_eq!(EngConsonant::from_char('a'), None);
    assert_eq!(EngConsonant::from_char('.'), None);
    assert!(EngConsonant::is_consonant('y'));
    assert!(!EngConsonant::is_consonant('e'));
    let words = read_wordlist("configure,big,bigot,honest,in,undo\n");
    assert_eq!(words, vec!["configure", "big", "bigot", "honest", "in", "undo"]);
    let w = Word::from("preconfigured", &words);
    assert_eq!((w.prefix.as_str(), w.stem.as_str(), w.suffix.as_str()), ("pre", "configure", "ed"));
    assert_eq!(w.to_text(), "preconfigureed");
    let w = Word::from("The", &words);
    assert_eq!((w.prefix.as_str(), w.stem.as_str(), w.suffix.as_str()), ("", "The", ""));
    let w = Word::from("ingest", &words);
    assert_eq!((w.prefix.as_str(), w.stem.as_str(), w.suffix.as_str()), ("", "in", "est"));
    let w = Word::from("honestly", &words);
    assert_eq!((w.prefix.as_str(), w.stem.as_str(), w.suffix.as_str()), ("", "honest", "ly"));
    let w = Word::from("zzz", &words);
    assert_eq!((w.prefix.as_str(), w.stem.as_str(), w.suffix.as_str()), ("", "zzz", ""));
    let w = Word::from("ed", &words);
    assert_eq!((w.prefix.as_str(), w.stem.as_str(), w.suffix.as_str()), ("", "in", "ed"));
    let ties = read_wordlist("bat,bar,ba");
    assert_eq!(Word::from("b", &ties).stem, "ba");
    let ties = read_wordlist("bat,bar");
    assert_eq!(Word::from("ba", &ties).stem, "bat");
    let w = Word::new();
    assert_eq!(w.to_text(), "");
    assert_eq!(stem_words(&strings(&["bigger", "unhonest"]), &words), vec!["big", "honest"]);
    assert_eq!(read_wordlist(""), vec![""]);
}

#[test]
fn directory_entries_are_listed_in_order() {
    let entries = strings(&["./src", "./.git", "./Cargo.toml", "./README.md", "./a/b", "plain", "./src"]);
    assert_eq!(list_names(&entries, false), vec!["Cargo.toml", "README.md", "b", "src"]);
    assert_eq!(
        list_names(&entries, true),
        vec![".", "..", ".git", "Cargo.toml", "README.md", "b", "src"]
    );
    assert_eq!(list_names(&strings(&[]), false), Vec::<String>::new());
    assert_eq!(list_names(&strings(&[]), true), vec![".", ".."]);
    assert_eq!(list_names(&strings(&["/x/\u{e9}", "/x/z", "/x/Z", "/x/", "/x/zz"]), false), vec!["", "Z", "z", "zz", "\u{e9}"]);
    let mut sorted = vec!["b", "a", "B", "", "ab", "a\u{1F4A9}", "a\u{e9}"];
    sorted.sort();
    let as_entries: Vec<String> = sorted.iter().rev().map(|n| format!("/{n}")).collect();
    assert_eq!(list_names(&as_entries, false), sorted);
    assert_eq!(name_to_list("dir/.hidden", false), None);
    assert_eq!(name_to_list("dir/.hidden", true), Some(".hidden".to_string()));
    assert_eq!(name_to_list("nodir", true), None);
    let chars = |s: &str| s.chars().collect::<Vec<char>>();
    assert_eq!(rank(&chars("a"), &chars("b")), Rank::Before);
    assert_eq!(rank(&chars("b"), &chars("a")), Rank::After);
    assert_eq!(rank(&chars("a"), &chars("a")), Rank::Same);
    assert_eq!(rank(&chars("a"), &chars("ab")), Rank::Before);
    assert_eq!(rank(&chars("ab"), &chars("a")), Rank::After);
    assert_eq!(rank(&chars(""), &chars("")), Rank::Same);
}

#[test]
fn the_kernel_is_asked_for_its_names() {
    let machine_only = UnameFlags { machine: true, ..NO_FLAGS };
    let machine = rizzybox::uname::uname_line(machine_only, NO_MARKERS, IsaFormat::default);
    assert!(!machine.is_empty());
    let both = UnameFlags { kernel: true, machine: true, ..NO_FLAGS };
    let line = rizzybox::uname::uname_line(both, NO_MARKERS, IsaFormat::default);
    assert!(line.ends_with(&format!(" {machine}")));
    assert!(line.len() > machine.len() + 1);
    let kernel = rizzybox::uname::uname_line(NO_FLAGS, NO_MARKERS, IsaFormat::default);
    assert_eq!(line, format!("{kernel} {machine}"));
}
