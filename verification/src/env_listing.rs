//! The listing of an environment, and the command that `env` runs.

use vstd::prelude::*;
use vstd::string::StringExecFns;
use crate::kv::{KVError, KVPair};
use crate::text::first_index_of;

verus! {

/// What ends each printed variable: nothing where NUL is asked for, else a
/// newline.
pub open spec fn line_ending(null: bool) -> Seq<char> {
    if null {
        Seq::empty()
    } else {
        seq!['\n']
    }
}

/// The first `shown` variables, each as `key=value` with its ending.
pub open spec fn listing(vars: Seq<(Seq<char>, Seq<char>)>, null: bool, shown: nat) -> Seq<char>
    decreases shown,
{
    if shown == 0 || shown > vars.len() {
        Seq::empty()
    } else {
        listing(vars, null, (shown - 1) as nat) + vars[shown - 1].0 + seq!['='] + vars[shown
            - 1].1 + line_ending(null)
    }
}

/// Writes the listing of `vars`.
pub fn render_environment(vars: &Vec<(String, String)>, null: bool) -> (text: String)
    ensures
        text@ == listing(vars.deep_view(), null, vars.len() as nat),
{
    proof {
        reveal_strlit("\n");
        reveal_strlit("");
        assert("\n"@ =~= seq!['\n']);
        assert(""@ =~= Seq::<char>::empty());
    }
    let ending = if null { "" } else { "\n" };
    let mut text = String::new();
    let mut i: usize = 0;
    while i < vars.len()
        invariant
            i <= vars.len(),
            ending@ == line_ending(null),
            text@ == listing(vars.deep_view(), null, i as nat),
        decreases vars.len() - i,
    {
        let pair = KVPair::from(vars[i].0.as_str(), vars[i].1.as_str());
        let line = pair.as_string();
        assert(vars.deep_view()[i as int] == (vars@[i as int].0@, vars@[i as int].1@));
        text.append(line.as_str());
        text.append(ending);
        i += 1;
    }
    text
}

/// The assignments that `lines` make, where every line is one.
pub open spec fn assignments(lines: Seq<Seq<char>>) -> Option<Seq<(Seq<char>, Seq<char>)>> {
    if forall|i: int| 0 <= i < lines.len() ==> (#[trigger] lines[i]).contains('=') {
        Some(
            Seq::new(
                lines.len(),
                |i: int|
                    (
                        lines[i].take(first_index_of(lines[i], '=')),
                        lines[i].skip(first_index_of(lines[i], '=') + 1),
                    ),
            ),
        )
    } else {
        None
    }
}

/// Reads the `KEY=VALUE` lines that a command is to find in its
/// environment. A line without a `=` fails them all.
pub fn parse_assignments(lines: &Vec<String>) -> (r: Result<Vec<(String, String)>, KVError>)
    ensures
        match r {
            Ok(pairs) => assignments(lines.deep_view()) == Some(pairs.deep_view()),
            Err(e) => assignments(lines.deep_view()) is None,
        },
{
    let mut pairs: Vec<(String, String)> = Vec::new();
    let mut i: usize = 0;
    while i < lines.len()
        invariant
            i <= lines.len(),
            pairs@.len() == i,
            forall|k: int| 0 <= k < i ==> (#[trigger] lines.deep_view()[k]).contains('='),
            forall|k: int|
                0 <= k < i ==> (#[trigger] pairs@[k]).0@ == lines.deep_view()[k].take(
                    first_index_of(lines.deep_view()[k], '='),
                ) && pairs@[k].1@ == lines.deep_view()[k].skip(
                    first_index_of(lines.deep_view()[k], '=') + 1,
                ),
        decreases lines.len() - i,
    {
        assert(lines.deep_view()[i as int] == lines@[i as int]@);
        match KVPair::parse(lines[i].as_str()) {
            Ok(pair) => {
                pairs.push((String::from_str(pair.key), String::from_str(pair.value)));
            },
            Err(e) => {
                assert(!lines.deep_view()[i as int].contains('='));
                return Err(e);
            },
        }
        i += 1;
    }
    assert(pairs.deep_view() =~= assignments(lines.deep_view())->0);
    Ok(pairs)
}

} // verus!
