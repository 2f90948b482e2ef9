//! Where a command is looked for along a search path.

use vstd::prelude::*;
use vstd::string::StringExecFns;
use crate::text::{split, split_at};

verus! {

/// The search path that is used where the environment has none.
pub const FALLBACK_PATH: &'static str = "/bin:/usr/bin";

/// The files that may be `command`: one in each directory of the search
/// path, in the order of the directories.
pub open spec fn candidates(path: Seq<char>, command: Seq<char>) -> Seq<Seq<char>> {
    split_at(path, ':').map_values(|dir: Seq<char>| dir + seq!['/'] + command)
}

/// Lists the files that may be `command`.
pub fn candidate_paths(path: &str, command: &str) -> (files: Vec<String>)
    ensures
        files.deep_view() == candidates(path@, command@),
{
    proof {
        reveal_strlit("/");
        assert("/"@ =~= seq!['/']);
    }
    let dirs = split(path, ':');
    let mut files: Vec<String> = Vec::new();
    let mut i: usize = 0;
    while i < dirs.len()
        invariant
            i <= dirs.len(),
            "/"@ == seq!['/'],
            files@.len() == i,
            forall|k: int|
                0 <= k < i ==> (#[trigger] files@[k])@ == dirs@[k]@ + seq!['/'] + command@,
        decreases dirs.len() - i,
    {
        files.push(dirs[i].clone().concat("/").concat(command));
        i += 1;
    }
    assert(files.deep_view() =~= candidates(path@, command@));
    files
}

/// What a search reports.
#[derive(Debug)]
pub struct Finding {
    /// The files to print, in their order.
    pub shown: Vec<String>,
    /// The file that the search returns.
    pub found: Option<String>,
}

/// The files among the first `n` probed candidates that exist.
pub open spec fn present_among(probed: Seq<(Seq<char>, bool)>, n: int) -> Seq<Seq<char>>
    decreases n,
{
    if n <= 0 || n > probed.len() {
        Seq::empty()
    } else if probed[n - 1].1 {
        present_among(probed, n - 1).push(probed[n - 1].0)
    } else {
        present_among(probed, n - 1)
    }
}

/// The position of the first probed candidate that exists, or the number
/// of candidates.
pub open spec fn first_present(probed: Seq<(Seq<char>, bool)>) -> int
    decreases probed.len(),
{
    if probed.len() == 0 {
        0
    } else if probed[0].1 {
        0
    } else {
        1 + first_present(probed.skip(1))
    }
}

/// Decides what a search reports from the candidates, each with whether it
/// exists.
///
/// A search for the first occurrence shows and returns the first candidate
/// that exists. A search for all occurrences shows every candidate that
/// exists and returns none.
pub fn report_findings(probed: &Vec<(String, bool)>, all_occurrences: bool) -> (finding: Finding)
    ensures
        all_occurrences ==> finding.found is None && finding.shown.deep_view() == present_among(
            probed.deep_view(),
            probed.len() as int,
        ),
        !all_occurrences ==> {
            let at = first_present(probed.deep_view());
            if at < probed.len() {
                &&& finding.found.deep_view() == Some(probed.deep_view()[at].0)
                &&& finding.shown.deep_view() == seq![probed.deep_view()[at].0]
            } else {
                &&& finding.found is None
                &&& finding.shown.len() == 0
            }
        },
{
    let ghost all = probed.deep_view();
    let mut shown: Vec<String> = Vec::new();
    let mut i: usize = 0;
    assert(all.skip(0) =~= all);
    assert(shown.deep_view() =~= Seq::<Seq<char>>::empty());
    while i < probed.len()
        invariant
            i <= probed.len(),
            all == probed.deep_view(),
            all_occurrences ==> shown.deep_view() == present_among(all, i as int),
            !all_occurrences ==> shown.len() == 0 && i + first_present(all.skip(i as int))
                == first_present(all),
        decreases probed.len() - i,
    {
        assert(all.skip(i as int)[0] == all[i as int]);
        assert(all.skip(i as int).skip(1) =~= all.skip(i + 1));
        assert(all[i as int] == (probed@[i as int].0@, probed@[i as int].1));
        if probed[i].1 {
            let ghost before = shown.deep_view();
            shown.push(probed[i].0.clone());
            assert(shown.deep_view() =~= before.push(probed@[i as int].0@));
            if !all_occurrences {
                assert(shown.deep_view() =~= seq![all[i as int].0]);
                return Finding { shown, found: Some(probed[i].0.clone()) };
            }
        }
        i += 1;
    }
    assert(all.skip(probed.len() as int).len() == 0);
    Finding { shown, found: None }
}

} // verus!
