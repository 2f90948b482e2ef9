//! The names that a directory listing shows.
//!
//! Each entry of a directory is shown by its last component. Hidden names,
//! those that begin with a dot, are shown only on request, and then the
//! directory itself and its parent are listed with them. The names come out
//! in order, each once.

use vstd::prelude::*;
use vstd::string::StringExecFns;
use crate::path_names::{find_last, last_component, last_index_of};
use crate::text::{chars_of, skip_chars};

verus! {

/// How one text stands to another in the order of a listing.
#[derive(Debug, Clone, Copy, PartialEq, Eq, Structural)]
pub enum Rank {
    Before,
    Same,
    After,
}

/// Whether `a` comes before `b`: at the first place where they differ `a`
/// holds the character of the smaller code, or `a` ends there and `b` goes
/// on.
pub open spec fn comes_before(a: Seq<char>, b: Seq<char>) -> bool
    decreases a.len(),
{
    if b.len() == 0 {
        false
    } else if a.len() == 0 {
        true
    } else if a[0] != b[0] {
        a[0] < b[0]
    } else {
        comes_before(a.skip(1), b.skip(1))
    }
}

/// Ranks `a` against `b`.
pub fn rank(a: &Vec<char>, b: &Vec<char>) -> (r: Rank)
    ensures
        r == Rank::Before ==> comes_before(a@, b@),
        r == Rank::Same ==> a@ == b@,
        r == Rank::After ==> comes_before(b@, a@),
{
    let mut i: usize = 0;
    assert(a@.skip(0) =~= a@);
    assert(b@.skip(0) =~= b@);
    while i < a.len() && i < b.len()
        invariant
            i <= a.len(),
            i <= b.len(),
            forall|k: int| 0 <= k < i ==> a@[k] == b@[k],
            comes_before(a@.skip(i as int), b@.skip(i as int)) == comes_before(a@, b@),
            comes_before(b@.skip(i as int), a@.skip(i as int)) == comes_before(b@, a@),
        decreases a.len() - i,
    {
        assert(a@.skip(i as int)[0] == a@[i as int]);
        assert(b@.skip(i as int)[0] == b@[i as int]);
        assert(a@.skip(i as int).skip(1) =~= a@.skip(i + 1));
        assert(b@.skip(i as int).skip(1) =~= b@.skip(i + 1));
        if a[i] != b[i] {
            if a[i] < b[i] {
                return Rank::Before;
            } else {
                return Rank::After;
            }
        }
        i += 1;
    }
    if i < b.len() {
        Rank::Before
    } else if i < a.len() {
        Rank::After
    } else {
        assert(a@ =~= b@);
        Rank::Same
    }
}

/// Each name comes before the one behind it.
pub open spec fn ascending(names: Seq<Seq<char>>) -> bool {
    forall|i: int| 0 <= i < names.len() - 1 ==> comes_before(#[trigger] names[i], names[i + 1])
}

/// The name under which an entry is listed: its last component, where the
/// entry holds a `/` and the name is not hidden or hidden ones are wanted.
pub open spec fn listed_name(entry: Seq<char>, all: bool) -> Option<Seq<char>> {
    if last_index_of(entry, '/') < 0 {
        None
    } else {
        let name = last_component(entry);
        if all || !(name.len() > 0 && name[0] == '.') {
            Some(name)
        } else {
            None
        }
    }
}

/// Whether a listing of `entries` shows `name`.
pub open spec fn is_listed(entries: Seq<Seq<char>>, all: bool, name: Seq<char>) -> bool {
    ||| all && (name == seq!['.'] || name == seq!['.', '.'])
    ||| exists|k: int| 0 <= k < entries.len() && listed_name(#[trigger] entries[k], all) == Some(name)
}

/// Whether a listing of the first `n` of `entries` shows `name`.
pub open spec fn is_listed_among(entries: Seq<Seq<char>>, all: bool, n: int, name: Seq<char>) -> bool {
    ||| all && (name == seq!['.'] || name == seq!['.', '.'])
    ||| exists|k: int| 0 <= k < n && k < entries.len() && listed_name(#[trigger] entries[k], all) == Some(name)
}

/// Finds the name under which an entry is listed.
pub fn name_to_list(entry: &str, all: bool) -> (name: Option<String>)
    ensures
        name.deep_view() == listed_name(entry@, all),
{
    let cs = chars_of(entry);
    match find_last(&cs, '/') {
        None => None,
        Some(i) => {
            let name = skip_chars(entry, i + 1);
            if all || !(name.as_str().unicode_len() > 0 && name.as_str().get_char(0) == '.') {
                Some(name)
            } else {
                None
            }
        },
    }
}

/// Puts `name` into the ascending `names`, unless it is there.
fn insert_name(names: &mut Vec<String>, name: String)
    requires
        ascending(old(names).deep_view()),
    ensures
        ascending(final(names).deep_view()),
        forall|s: Seq<char>|
            final(names).deep_view().contains(s) <==> old(names).deep_view().contains(s) || s
                == name@,
{
    let ghost before = names.deep_view();
    let wanted = chars_of(name.as_str());
    let mut i: usize = 0;
    let mut placed = false;
    while i < names.len() && !placed
        invariant
            i <= names.len(),
            names.deep_view() == before,
            ascending(before),
            wanted@ == name@,
            forall|k: int| 0 <= k < i ==> comes_before(#[trigger] before[k], name@),
            placed ==> i < names.len() && comes_before(name@, before[i as int]),
        decreases names.len() - i, (if placed { 0int } else { 1int }),
    {
        let here = chars_of(names[i].as_str());
        assert(before[i as int] == names@[i as int]@);
        match rank(&here, &wanted) {
            Rank::Before => {
                i += 1;
            },
            Rank::Same => {
                assert(before.contains(name@));
                return ;
            },
            Rank::After => {
                placed = true;
            },
        }
    }
    proof {
        lemma_not_among_smaller(before, name@, i as int);
    }
    names.insert(i, name);
    proof {
        let after = names.deep_view();
        assert(after =~= before.insert(i as int, name@));
        assert forall|k: int| 0 <= k < after.len() - 1 implies comes_before(
            #[trigger] after[k],
            after[k + 1],
        ) by {
            if k + 1 < i {
                assert(after[k] == before[k] && after[k + 1] == before[k + 1]);
            } else if k + 1 == i {
                assert(after[k] == before[k]);
            } else if k == i {
                assert(after[k + 1] == before[k]);
            } else {
                assert(after[k] == before[k - 1] && after[k + 1] == before[k]);
            }
        }
        assert forall|s: Seq<char>| after.contains(s) <==> before.contains(s) || s == name@ by {
            if after.contains(s) {
                let k = choose|k: int| 0 <= k < after.len() && after[k] == s;
                if k < i {
                    assert(before[k] == s);
                } else if k > i {
                    assert(before[k - 1] == s);
                }
            }
            if before.contains(s) {
                let k = choose|k: int| 0 <= k < before.len() && before[k] == s;
                if k < i {
                    assert(after[k] == s);
                } else {
                    assert(after[k + 1] == s);
                }
            }
            if s == name@ {
                assert(after[i as int] == s);
            }
        }
    }
}

/// A text does not come before itself.
pub proof fn lemma_comes_before_is_strict(a: Seq<char>)
    ensures
        !comes_before(a, a),
    decreases a.len(),
{
    if a.len() > 0 {
        lemma_comes_before_is_strict(a.skip(1));
    }
}

/// Texts that come before `name` are not `name`.
proof fn lemma_not_among_smaller(names: Seq<Seq<char>>, name: Seq<char>, n: int)
    requires
        0 <= n <= names.len(),
        forall|k: int| 0 <= k < n ==> comes_before(#[trigger] names[k], name),
    ensures
        forall|k: int| 0 <= k < n ==> names[k] != name,
{
    lemma_comes_before_is_strict(name);
}

/// The names that a listing of `entries` shows: in ascending order, each
/// once.
pub fn list_names(entries: &Vec<String>, all: bool) -> (names: Vec<String>)
    ensures
        ascending(names.deep_view()),
        forall|s: Seq<char>| names.deep_view().contains(s) <==> is_listed(entries.deep_view(), all, s),
{
    proof {
        reveal_strlit(".");
        reveal_strlit("..");
        assert("."@ =~= seq!['.']);
        assert(".."@ =~= seq!['.', '.']);
    }
    let mut names: Vec<String> = Vec::new();
    assert(names.deep_view() =~= Seq::<Seq<char>>::empty());
    if all {
        insert_name(&mut names, String::from_str("."));
        insert_name(&mut names, String::from_str(".."));
    }
    let ghost all_entries = entries.deep_view();
    let mut i: usize = 0;
    while i < entries.len()
        invariant
            i <= entries.len(),
            all_entries == entries.deep_view(),
            ascending(names.deep_view()),
            forall|s: Seq<char>|
                names.deep_view().contains(s) <==> is_listed_among(all_entries, all, i as int, s),
        decreases entries.len() - i,
    {
        assert(all_entries[i as int] == entries@[i as int]@);
        let ghost shown = names.deep_view();
        match name_to_list(entries[i].as_str(), all) {
            Some(name) => {
                let ghost added = name@;
                insert_name(&mut names, name);
                assert forall|s: Seq<char>|
                    names.deep_view().contains(s) <==> is_listed_among(
                        all_entries,
                        all,
                        i + 1,
                        s,
                    ) by {
                    if is_listed_among(all_entries, all, i + 1, s) && !is_listed_among(
                        all_entries,
                        all,
                        i as int,
                        s,
                    ) {
                        let k = choose|k: int|
                            0 <= k < i + 1 && k < all_entries.len() && listed_name(
                                #[trigger] all_entries[k],
                                all,
                            ) == Some(s);
                        assert(k == i);
                    }
                    if s == added {
                        assert(listed_name(all_entries[i as int], all) == Some(s));
                    }
                    if is_listed_among(all_entries, all, i as int, s) {
                        assert(is_listed_among(all_entries, all, i + 1, s));
                    }
                }
            },
            None => {
                assert forall|s: Seq<char>|
                    names.deep_view().contains(s) <==> is_listed_among(
                        all_entries,
                        all,
                        i + 1,
                        s,
                    ) by {
                    if is_listed_among(all_entries, all, i + 1, s) && !is_listed_among(
                        all_entries,
                        all,
                        i as int,
                        s,
                    ) {
                        let k = choose|k: int|
                            0 <= k < i + 1 && k < all_entries.len() && listed_name(
                                #[trigger] all_entries[k],
                                all,
                            ) == Some(s);
                        assert(k == i);
                    }
                    if is_listed_among(all_entries, all, i as int, s) {
                        assert(is_listed_among(all_entries, all, i + 1, s));
                    }
                }
            },
        }
        i += 1;
    }
    assert forall|s: Seq<char>|
        names.deep_view().contains(s) <==> is_listed(all_entries, all, s) by {
        assert(is_listed_among(all_entries, all, entries.len() as int, s) <==> is_listed(
            all_entries,
            all,
            s,
        ));
    }
    names
}

} // verus!
