//! The decisions of a small interactive shell: how a line is read, which
//! commands it runs itself, and what its builtins do with their arguments.

use vstd::prelude::*;
use vstd::string::StringExecFns;
use crate::text::{chars_of, is_space, is_white_space, same_text, string_from_chars};

verus! {

/// The arguments of `cd`.
#[derive(Debug)]
pub struct CdCommand {
    /// The directory to change to.
    pub dir: String,
}

/// The arguments of `exit`.
#[derive(Debug, Clone, Copy, PartialEq, Eq, Structural)]
pub struct ExitCommand {
    /// The exit code.
    pub code: i32,
}

/// The arguments of `pwd`.
#[derive(Debug, Clone, Copy, PartialEq, Eq, Structural)]
pub struct PwdCommand {
    /// Print the working directory as the shell knows it.
    pub logical: bool,
    /// Print the working directory with its links resolved.
    pub physical: bool,
}

impl Default for CdCommand {
    fn default() -> (cmd: Self)
        ensures
            cmd.dir@ == "$HOME"@,
    {
        CdCommand { dir: String::from_str("$HOME") }
    }
}

impl Default for ExitCommand {
    fn default() -> (cmd: Self)
        ensures
            cmd.code == 0,
    {
        ExitCommand { code: 0 }
    }
}

impl Default for PwdCommand {
    fn default() -> (cmd: Self)
        ensures
            cmd.logical,
            !cmd.physical,
    {
        PwdCommand { logical: true, physical: false }
    }
}

/// Why `cd` cannot tell where to go.
#[derive(Debug, Clone, Copy, PartialEq, Eq, Structural)]
pub enum CdError {
    /// The home directory was asked for and `HOME` is not set.
    HomeNotSet,
    /// The previous directory was asked for and `OLDPWD` is not set.
    OldPwdNotSet,
}

/// Where `cd` goes: home for `$HOME` and `~`, the previous directory for
/// `-`, and else where it is told.
pub open spec fn cd_target(
    dir: Seq<char>,
    home: Option<Seq<char>>,
    oldpwd: Option<Seq<char>>,
) -> Result<Seq<char>, CdError> {
    if dir == "$HOME"@ || dir == "~"@ {
        match home {
            Some(h) => Ok(h),
            None => Err(CdError::HomeNotSet),
        }
    } else if dir == "-"@ {
        match oldpwd {
            Some(p) => Ok(p),
            None => Err(CdError::OldPwdNotSet),
        }
    } else {
        Ok(dir)
    }
}

/// Which form of the working directory `pwd` prints.
#[derive(Debug, Clone, Copy, PartialEq, Eq, Structural)]
pub enum PwdForm {
    /// As the shell knows it.
    Logical,
    /// With its links resolved.
    Physical,
}

/// The form that `pwd` prints: the physical one only where it is asked for
/// and the logical one is not.
pub open spec fn pwd_form(cmd: PwdCommand) -> PwdForm {
    if !cmd.logical && cmd.physical {
        PwdForm::Physical
    } else {
        PwdForm::Logical
    }
}

impl CdCommand {
    /// Decides where to go, given the values of `HOME` and `OLDPWD`.
    pub fn target(&self, home: Option<String>, oldpwd: Option<String>) -> (r: Result<
        String,
        CdError,
    >)
        ensures
            match r {
                Ok(dir) => cd_target(self.dir@, home.deep_view(), oldpwd.deep_view()) == Ok::<
                    Seq<char>,
                    CdError,
                >(dir@),
                Err(e) => cd_target(self.dir@, home.deep_view(), oldpwd.deep_view()) == Err::<
                    Seq<char>,
                    CdError,
                >(e),
            },
    {
        let dir = self.dir.as_str();
        if same_text(dir, "$HOME") || same_text(dir, "~") {
            match home {
                Some(h) => Ok(h),
                None => Err(CdError::HomeNotSet),
            }
        } else if same_text(dir, "-") {
            match oldpwd {
                Some(p) => Ok(p),
                None => Err(CdError::OldPwdNotSet),
            }
        } else {
            Ok(self.dir.clone())
        }
    }
}

impl PwdCommand {
    /// Decides which form to print.
    pub fn form(&self) -> (form: PwdForm)
        ensures
            form == pwd_form(*self),
    {
        if !self.logical && self.physical {
            PwdForm::Physical
        } else {
            PwdForm::Logical
        }
    }
}

/// The words of `s`: the longest runs of characters that are no white
/// space, in their order.
pub open spec fn words_of(s: Seq<char>) -> Seq<Seq<char>>
    decreases s.len(),
{
    if s.len() == 0 {
        Seq::empty()
    } else {
        let before = words_of(s.drop_last());
        if is_white_space(s.last()) {
            before
        } else if s.len() >= 2 && !is_white_space(s[s.len() - 2]) {
            before.drop_last().push(before.last().push(s.last()))
        } else {
            before.push(seq![s.last()])
        }
    }
}

/// Cuts a line into its words.
pub fn split_words(line: &str) -> (words: Vec<String>)
    ensures
        words.deep_view() == words_of(line@),
{
    let cs = chars_of(line);
    let mut done: Vec<String> = Vec::new();
    let mut current: Vec<char> = Vec::new();
    let mut i: usize = 0;
    assert(cs@.take(0) =~= Seq::<char>::empty());
    assert(done.deep_view() =~= Seq::<Seq<char>>::empty());
    while i < cs.len()
        invariant
            i <= cs.len(),
            current@.len() > 0 <==> i > 0 && !is_white_space(cs@[i - 1]),
            current@.len() > 0 ==> done.deep_view().push(current@) == words_of(cs@.take(i as int)),
            current@.len() == 0 ==> done.deep_view() == words_of(cs@.take(i as int)),
        decreases cs.len() - i,
    {
        let ghost head = cs@.take(i + 1);
        let ghost prev = cs@.take(i as int);
        assert(head.drop_last() =~= prev);
        assert(head.last() == cs@[i as int]);
        proof {
            if i > 0 {
                assert(head[head.len() - 2] == cs@[i - 1]);
            }
        }
        if is_space(cs[i]) {
            if current.len() > 0 {
                let piece = string_from_chars(&current);
                let ghost old_done = done.deep_view();
                done.push(piece);
                assert(done.deep_view() =~= old_done.push(current@));
                current = Vec::new();
            }
        } else {
            let ghost was = current@;
            current.push(cs[i]);
            proof {
                if was.len() > 0 {
                    let before = words_of(prev);
                    assert(before.drop_last() =~= done.deep_view());
                    assert(before.last() == was);
                } else {
                    assert(current@ =~= seq![cs@[i as int]]);
                }
            }
        }
        i += 1;
    }
    assert(cs@.take(cs.len() as int) =~= cs@);
    if current.len() > 0 {
        let piece = string_from_chars(&current);
        let ghost old_done = done.deep_view();
        done.push(piece);
        assert(done.deep_view() =~= old_done.push(current@));
    }
    done
}

/// What a line asks the shell to do.
#[derive(Debug, Clone, Copy, PartialEq, Eq, Structural)]
pub enum LineKind {
    /// Nothing: the line holds no word.
    Empty,
    /// Change the working directory.
    Cd,
    /// Leave the shell.
    Exit,
    /// Print the working directory.
    Pwd,
    /// An opening parenthesis, which is only remarked upon.
    OpenParen,
    /// A closing parenthesis, which is only remarked upon.
    CloseParen,
    /// Run a program.
    External,
}

/// What the words of a line ask for: the first word names the command.
pub open spec fn line_kind(words: Seq<Seq<char>>) -> LineKind {
    if words.len() == 0 {
        LineKind::Empty
    } else if words[0] == "cd"@ {
        LineKind::Cd
    } else if words[0] == "exit"@ {
        LineKind::Exit
    } else if words[0] == "pwd"@ {
        LineKind::Pwd
    } else if words[0] == "("@ {
        LineKind::OpenParen
    } else if words[0] == ")"@ {
        LineKind::CloseParen
    } else {
        LineKind::External
    }
}

/// Decides what the words of a line ask for.
pub fn classify_line(words: &Vec<String>) -> (kind: LineKind)
    ensures
        kind == line_kind(words.deep_view()),
{
    if words.len() == 0 {
        return LineKind::Empty;
    }
    assert(words.deep_view()[0] == words@[0]@);
    let command = words[0].as_str();
    if same_text(command, "cd") {
        LineKind::Cd
    } else if same_text(command, "exit") {
        LineKind::Exit
    } else if same_text(command, "pwd") {
        LineKind::Pwd
    } else if same_text(command, "(") {
        LineKind::OpenParen
    } else if same_text(command, ")") {
        LineKind::CloseParen
    } else {
        LineKind::External
    }
}

/// The prompt: `# ` for root, else the one that `PS1` sets, else the
/// shell's own.
pub open spec fn prompt_text(is_root: bool, ps1: Option<Seq<char>>) -> Seq<char> {
    if is_root {
        "# "@
    } else {
        match ps1 {
            Some(p) => p,
            None => "\u{CE}\u{BB} "@,
        }
    }
}

/// Decides the prompt.
pub fn prompt(is_root: bool, ps1: Option<String>) -> (text: String)
    ensures
        text@ == prompt_text(is_root, ps1.deep_view()),
{
    if is_root {
        String::from_str("# ")
    } else {
        match ps1 {
            Some(p) => p,
            None => String::from_str("\u{CE}\u{BB} "),
        }
    }
}

} // verus!
