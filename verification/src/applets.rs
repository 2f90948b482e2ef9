//! The small decisions of the simple applets: what `cat` reads, how `yes`
//! repeats, what `ln` does to its destination, what `clear` writes.

use vstd::prelude::*;
use vstd::string::StringExecFns;
use crate::expand::STANDARD_INPUT;

verus! {

/// What clears a terminal: erase the display, then move the cursor home.
pub const CLEAR_SEQUENCE: &'static str = "\x1b[2J\x1b[H";

/// The files that `cat` prints: the standard input where none is named.
pub open spec fn cat_inputs(files: Seq<Seq<char>>) -> Seq<Seq<char>> {
    if files.len() == 0 {
        seq![STANDARD_INPUT@]
    } else {
        files
    }
}

/// Lists the files that `cat` prints.
pub fn files_to_print(files: &Vec<String>) -> (inputs: Vec<String>)
    ensures
        inputs.deep_view() == cat_inputs(files.deep_view()),
{
    let mut inputs: Vec<String> = Vec::new();
    if files.len() == 0 {
        inputs.push(String::from_str(STANDARD_INPUT));
        assert(inputs.deep_view() =~= seq![STANDARD_INPUT@]);
        return inputs;
    }
    let mut i: usize = 0;
    while i < files.len()
        invariant
            i <= files.len(),
            inputs@.len() == i,
            forall|k: int| 0 <= k < i ==> (#[trigger] inputs@[k])@ == files@[k]@,
        decreases files.len() - i,
    {
        inputs.push(files[i].clone());
        i += 1;
    }
    assert(inputs.deep_view() =~= files.deep_view());
    inputs
}

/// How `yes` repeats its line.
#[derive(Debug, Clone, Copy, PartialEq, Eq, Structural)]
pub enum Repetition {
    /// This many times.
    Times(usize),
    /// For the duration that was given.
    Timed,
    /// Until the process is ended from outside.
    Forever,
}

/// How `yes` repeats: a positive amount wins over a duration, and without
/// either it never stops.
pub open spec fn repetition(amount: usize, timed: bool) -> Repetition {
    if amount > 0 {
        Repetition::Times(amount)
    } else if timed {
        Repetition::Timed
    } else {
        Repetition::Forever
    }
}

/// Decides how `yes` repeats. `timed` says whether a duration longer than
/// nothing was given.
pub fn plan_repetition(amount: usize, timed: bool) -> (plan: Repetition)
    ensures
        plan == repetition(amount, timed),
{
    if amount > 0 {
        Repetition::Times(amount)
    } else if timed {
        Repetition::Timed
    } else {
        Repetition::Forever
    }
}

/// What `ln` does.
#[derive(Debug, Clone, Copy, PartialEq, Eq, Structural)]
pub struct LinkPlan {
    /// The destination is removed first.
    pub remove_destination: bool,
    /// A symbolic link is made. Hard links are not made at all.
    pub make_symlink: bool,
}

/// What `ln` does: a destination that is there is removed where that is
/// forced, and the link is made where a symbolic one is asked for.
pub open spec fn link_plan(force: bool, symlink: bool, destination_present: bool) -> LinkPlan {
    LinkPlan { remove_destination: force && destination_present, make_symlink: symlink }
}

/// Decides what `ln` does.
pub fn plan_link(force: bool, symlink: bool, destination_present: bool) -> (plan: LinkPlan)
    ensures
        plan == link_plan(force, symlink, destination_present),
{
    LinkPlan { remove_destination: force && destination_present, make_symlink: symlink }
}

/// What `clear` writes: the clearing sequence on a line of its own.
pub fn clear_text() -> (text: String)
    ensures
        text@ == CLEAR_SEQUENCE@.push('\n'),
{
    let mut text = String::from_str(CLEAR_SEQUENCE);
    text.push('\n');
    text
}

/// `times` lines that each hold `text`.
pub open spec fn repeated_lines(text: Seq<char>, times: nat) -> Seq<char>
    decreases times,
{
    if times == 0 {
        Seq::empty()
    } else {
        repeated_lines(text, (times - 1) as nat) + text.push('\n')
    }
}

/// Writes `text` on `times` lines.
pub fn yes_text(text: &str, times: usize) -> (lines: String)
    ensures
        lines@ == repeated_lines(text@, times as nat),
{
    let mut lines = String::new();
    let mut i: usize = 0;
    while i < times
        invariant
            i <= times,
            lines@ == repeated_lines(text@, i as nat),
        decreases times - i,
    {
        let ghost before = lines@;
        lines.append(text);
        lines.push('\n');
        assert(lines@ =~= before + text@.push('\n'));
        i += 1;
    }
    lines
}

} // verus!
