//! The last component of a path name, and what stands before it.

use vstd::prelude::*;
use vstd::string::StringExecFns;
use crate::text::{chars_of, ends_with, finishes_with, take_chars};

verus! {

/// Position of the last `c` in `s`, or -1 where `s` holds none.
pub open spec fn last_index_of(s: Seq<char>, c: char) -> int
    decreases s.len(),
{
    if s.len() == 0 {
        -1
    } else if s.last() == c {
        s.len() - 1
    } else {
        last_index_of(s.drop_last(), c)
    }
}

/// Finds the last `c` of `cs`, if there is one.
pub fn find_last(cs: &Vec<char>, c: char) -> (at: Option<usize>)
    ensures
        match at {
            Some(i) => i < cs.len() && i as int == last_index_of(cs@, c),
            None => last_index_of(cs@, c) == -1,
        },
{
    let mut j: usize = cs.len();
    assert(cs@.take(j as int) =~= cs@);
    while j > 0
        invariant
            j <= cs.len(),
            last_index_of(cs@.take(j as int), c) == last_index_of(cs@, c),
        decreases j,
    {
        assert(cs@.take(j as int).last() == cs@[j - 1]);
        assert(cs@.take(j as int).drop_last() =~= cs@.take(j - 1));
        if cs[j - 1] == c {
            return Some(j - 1);
        }
        j -= 1;
    }
    None
}

/// `name` behind its last `/`; all of it where it holds none.
pub open spec fn last_component(name: Seq<char>) -> Seq<char> {
    name.skip(last_index_of(name, '/') + 1)
}

/// `s` with every trailing repetition of `suffix` taken off.
pub open spec fn without_trailing(s: Seq<char>, suffix: Seq<char>) -> Seq<char>
    decreases s.len(),
{
    if suffix.len() > 0 && finishes_with(s, suffix) {
        without_trailing(s.take(s.len() - suffix.len()), suffix)
    } else {
        s
    }
}

/// The base name of `name`: its last component, without the trailing
/// repetitions of the suffix where one is given.
pub open spec fn base_name(name: Seq<char>, suffix: Option<Seq<char>>) -> Seq<char> {
    match suffix {
        Some(suffix) => without_trailing(last_component(name), suffix),
        None => last_component(name),
    }
}

/// `name` before its last `/`; `.` where it holds none.
pub open spec fn dir_name(name: Seq<char>) -> Seq<char> {
    let at = last_index_of(name, '/');
    if at < 0 {
        seq!['.']
    } else {
        name.take(at)
    }
}

/// The end of a printed name: a NUL where asked for, else a newline.
pub open spec fn terminator(zero: bool) -> char {
    if zero {
        '\0'
    } else {
        '\n'
    }
}

/// How many names are printed: all of them where several are allowed or a
/// suffix is given, else the first only.
pub open spec fn names_shown(count: nat, multiple: bool, has_suffix: bool) -> nat {
    if multiple || has_suffix || count == 0 {
        count
    } else {
        1
    }
}

/// The base names of the first `shown` names, each with its terminator.
pub open spec fn base_names_text(
    names: Seq<Seq<char>>,
    suffix: Option<Seq<char>>,
    zero: bool,
    shown: nat,
) -> Seq<char>
    decreases shown,
{
    if shown == 0 || shown > names.len() {
        Seq::empty()
    } else {
        base_names_text(names, suffix, zero, (shown - 1) as nat) + base_name(
            names[shown - 1],
            suffix,
        ).push(terminator(zero))
    }
}

/// The directory names of the first `shown` names, each with its
/// terminator.
pub open spec fn dir_names_text(names: Seq<Seq<char>>, zero: bool, shown: nat) -> Seq<char>
    decreases shown,
{
    if shown == 0 || shown > names.len() {
        Seq::empty()
    } else {
        dir_names_text(names, zero, (shown - 1) as nat) + dir_name(names[shown - 1]).push(
            terminator(zero),
        )
    }
}

/// Takes every trailing repetition of `suffix` off `s`.
pub fn strip_trailing(s: String, suffix: &str) -> (r: String)
    ensures
        r@ == without_trailing(s@, suffix@),
{
    let n = suffix.unicode_len();
    let mut current = s;
    if n == 0 {
        return current;
    }
    while ends_with(current.as_str(), suffix)
        invariant
            n == suffix@.len(),
            n > 0,
            without_trailing(current@, suffix@) == without_trailing(s@, suffix@),
        decreases current@.len(),
    {
        let m = current.as_str().unicode_len();
        current = take_chars(current.as_str(), m - n);
    }
    current
}

/// The base name of `name`.
pub fn basename(name: &str, suffix: Option<&String>) -> (base: String)
    ensures
        base@ == base_name(
            name@,
            match suffix {
                Some(s) => Some(s@),
                None => None,
            },
        ),
{
    let cs = chars_of(name);
    let from: usize = match find_last(&cs, '/') {
        Some(i) => i + 1,
        None => 0,
    };
    let n = cs.len();
    let last = name.substring_char(from, n).to_owned();
    assert(name@.subrange(from as int, n as int) =~= name@.skip(from as int));
    match suffix {
        Some(suffix) => strip_trailing(last, suffix.as_str()),
        None => last,
    }
}

/// The directory name of `name`.
pub fn dirname(name: &str) -> (dir: String)
    ensures
        dir@ == dir_name(name@),
{
    let cs = chars_of(name);
    match find_last(&cs, '/') {
        Some(i) => take_chars(name, i),
        None => {
            proof {
                reveal_strlit(".");
            }
            assert("."@ =~= seq!['.']);
            String::from_str(".")
        },
    }
}

/// What `basename` prints for `names`.
pub fn basename_text(names: &Vec<String>, multiple: bool, suffix: Option<&String>, zero: bool) -> (text:
    String)
    ensures
        text@ == base_names_text(
            names.deep_view(),
            match suffix {
                Some(s) => Some(s@),
                None => None,
            },
            zero,
            names_shown(names.len() as nat, multiple, suffix is Some),
        ),
{
    let shown: usize = if multiple || suffix.is_some() || names.len() == 0 {
        names.len()
    } else {
        1
    };
    let ghost wanted = match suffix {
        Some(s) => Some(s@),
        None => None,
    };
    let mut text = String::new();
    let mut i: usize = 0;
    while i < shown
        invariant
            i <= shown <= names.len(),
            wanted == match suffix {
                Some(s) => Some(s@),
                None => None,
            },
            text@ == base_names_text(names.deep_view(), wanted, zero, i as nat),
        decreases shown - i,
    {
        let base = basename(names[i].as_str(), suffix);
        assert(names.deep_view()[i as int] == names@[i as int]@);
        text.append(base.as_str());
        text.push(if zero { '\0' } else { '\n' });
        i += 1;
        assert(text@ =~= base_names_text(names.deep_view(), wanted, zero, (i - 1) as nat)
            + base@.push(terminator(zero)));
    }
    text
}

/// What `dirname` prints for `names`.
pub fn dirname_text(names: &Vec<String>, zero: bool) -> (text: String)
    ensures
        text@ == dir_names_text(names.deep_view(), zero, names.len() as nat),
{
    let mut text = String::new();
    let mut i: usize = 0;
    while i < names.len()
        invariant
            i <= names.len(),
            text@ == dir_names_text(names.deep_view(), zero, i as nat),
        decreases names.len() - i,
    {
        let dir = dirname(names[i].as_str());
        assert(names.deep_view()[i as int] == names@[i as int]@);
        text.append(dir.as_str());
        text.push(if zero { '\0' } else { '\n' });
        i += 1;
        assert(text@ =~= dir_names_text(names.deep_view(), zero, (i - 1) as nat) + dir@.push(
            terminator(zero),
        ));
    }
    text
}

} // verus!
