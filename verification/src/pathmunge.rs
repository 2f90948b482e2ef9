//! Editing a search path: a list of directories written with `:` between
//! neighbours.

use vstd::prelude::*;
use vstd::string::StringExecFns;
use crate::text::{join, joined, same_text, split, split_at, trim, trimmed};

verus! {

/// The search path that is edited where the environment has none.
pub const DEFAULT_PATH: &'static str = "/bin:/sbin:/usr/bin:/usr/sbin";

/// An edit of a search path.
#[derive(Debug)]
pub enum PathmungeCommand {
    /// Put `path` behind all others.
    After { path: String, force: bool },
    /// Put `path` before all others.
    Before { path: String, force: bool },
    /// Take `path` out.
    Delete { path: String },
}

/// The directories of a search path, in their order.
#[derive(Debug)]
pub struct PathEnv {
    pub paths: Vec<String>,
}

impl View for PathEnv {
    type V = Seq<Seq<char>>;

    open spec fn view(&self) -> Seq<Seq<char>> {
        self.paths.deep_view()
    }
}

/// The directories that `text` lists: white space at its two ends is left
/// out, and every `:` separates two of them.
pub open spec fn path_list(text: Seq<char>) -> Seq<Seq<char>> {
    split_at(trimmed(text), ':')
}

/// `paths` without the entries that are `path`.
pub open spec fn without(paths: Seq<Seq<char>>, path: Seq<char>) -> Seq<Seq<char>>
    decreases paths.len(),
{
    if paths.len() == 0 {
        paths
    } else if paths.last() == path {
        without(paths.drop_last(), path)
    } else {
        without(paths.drop_last(), path).push(paths.last())
    }
}

/// `paths` written with `:` between neighbours.
pub open spec fn written(paths: Seq<Seq<char>>) -> Seq<char> {
    joined(paths, seq![':'])
}

/// The search path after putting `path` behind all others. One that is
/// new is appended. One that is there already stays where it is, unless
/// the move is forced. An empty one counts as new.
pub open spec fn put_after(paths: Seq<Seq<char>>, path: Seq<char>, force: bool) -> Seq<char> {
    if paths.contains(path) && path.len() > 0 {
        if force {
            written(without(paths, path).push(path))
        } else {
            written(paths)
        }
    } else {
        written(paths) + seq![':'] + path
    }
}

/// The search path after putting `path` before all others, by the same
/// rules.
pub open spec fn put_before(paths: Seq<Seq<char>>, path: Seq<char>, force: bool) -> Seq<char> {
    if paths.contains(path) && path.len() > 0 {
        if force {
            written(seq![path] + without(paths, path))
        } else {
            written(paths)
        }
    } else {
        path + seq![':'] + written(paths)
    }
}

/// The search path without `path`.
pub open spec fn deleted(paths: Seq<Seq<char>>, path: Seq<char>) -> Seq<char> {
    written(without(paths, path))
}

impl PathEnv {
    /// Reads a search path.
    pub fn from_text(text: &str) -> (env: PathEnv)
        ensures
            env@ == path_list(text@),
    {
        let body = trim(text);
        PathEnv { paths: split(body.as_str(), ':') }
    }

    /// Whether `path` is among the directories.
    pub fn holds(&self, path: &str) -> (r: bool)
        ensures
            r == self@.contains(path@),
    {
        let mut i: usize = 0;
        while i < self.paths.len()
            invariant
                i <= self.paths.len(),
                forall|j: int| 0 <= j < i ==> self@[j] != path@,
            decreases self.paths.len() - i,
        {
            assert(self@[i as int] == self.paths@[i as int]@);
            if same_text(self.paths[i].as_str(), path) {
                return true;
            }
            i += 1;
        }
        false
    }

    /// The directories other than `path`, in their order.
    pub fn others(&self, path: &str) -> (rest: Vec<String>)
        ensures
            rest.deep_view() == without(self@, path@),
    {
        let mut rest: Vec<String> = Vec::new();
        let mut i: usize = 0;
        assert(self@.take(0) =~= Seq::<Seq<char>>::empty());
        assert(rest.deep_view() =~= Seq::<Seq<char>>::empty());
        while i < self.paths.len()
            invariant
                i <= self.paths.len(),
                rest.deep_view() == without(self@.take(i as int), path@),
            decreases self.paths.len() - i,
        {
            let ghost head = self@.take(i + 1);
            assert(head.drop_last() =~= self@.take(i as int));
            assert(head.last() == self.paths@[i as int]@);
            if !same_text(self.paths[i].as_str(), path) {
                let ghost before = rest.deep_view();
                rest.push(self.paths[i].clone());
                assert(rest.deep_view() =~= before.push(self.paths@[i as int]@));
            }
            i += 1;
        }
        assert(self@.take(self.paths.len() as int) =~= self@);
        rest
    }

    /// The search path as text.
    pub fn to_text(&self) -> (text: String)
        ensures
            text@ == written(self@),
    {
        proof {
            reveal_strlit(":");
            assert(":"@ =~= seq![':']);
        }
        join(&self.paths, ":")
    }

    /// The search path after `command`, as text.
    pub fn munge(&self, command: &PathmungeCommand) -> (text: String)
        ensures
            text@ == match *command {
                PathmungeCommand::After { path, force } => put_after(self@, path@, force),
                PathmungeCommand::Before { path, force } => put_before(self@, path@, force),
                PathmungeCommand::Delete { path } => deleted(self@, path@),
            },
    {
        proof {
            reveal_strlit(":");
            assert(":"@ =~= seq![':']);
        }
        match command {
            PathmungeCommand::After { path, force } => {
                if self.holds(path.as_str()) && path.as_str().unicode_len() > 0 {
                    if *force {
                        let mut rest = self.others(path.as_str());
                        let ghost before = rest.deep_view();
                        rest.push(path.clone());
                        assert(rest.deep_view() =~= before.push(path@));
                        join(&rest, ":")
                    } else {
                        self.to_text()
                    }
                } else {
                    self.to_text().concat(":").concat(path.as_str())
                }
            },
            PathmungeCommand::Before { path, force } => {
                if self.holds(path.as_str()) && path.as_str().unicode_len() > 0 {
                    if *force {
                        let rest = self.others(path.as_str());
                        let mut all: Vec<String> = Vec::new();
                        all.push(path.clone());
                        let mut i: usize = 0;
                        while i < rest.len()
                            invariant
                                i <= rest.len(),
                                all.deep_view() == seq![path@] + rest.deep_view().take(i as int),
                            decreases rest.len() - i,
                        {
                            let ghost before = all.deep_view();
                            all.push(rest[i].clone());
                            assert(all.deep_view() =~= before.push(rest@[i as int]@));
                            assert(rest.deep_view().take(i + 1) =~= rest.deep_view().take(
                                i as int,
                            ).push(rest@[i as int]@));
                            i += 1;
                        }
                        assert(rest.deep_view().take(rest.len() as int) =~= rest.deep_view());
                        join(&all, ":")
                    } else {
                        self.to_text()
                    }
                } else {
                    path.clone().concat(":").concat(self.to_text().as_str())
                }
            },
            PathmungeCommand::Delete { path } => {
                let rest = self.others(path.as_str());
                join(&rest, ":")
            },
        }
    }
}

} // verus!
