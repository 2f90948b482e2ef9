//! A small stemmer for English words.
//!
//! A word loses one known prefix and one known suffix, a doubled final
//! consonant is undone, and the result is replaced by the shortest word of
//! a word list that begins with it. Articles are left alone. The result is
//! a guess, and a reproducible one.

use vstd::prelude::*;
use vstd::string::StringExecFns;
use crate::text::{
    ascii_trim_end_at,
    ascii_upper,
    begins_with,
    chars_of,
    ends_with,
    finishes_with,
    join_spaces,
    join_with_spaces,
    same_text,
    skip_chars,
    split,
    split_at,
    starts_with,
    take_chars,
    to_ascii_upper,
    trim,
    trim_ascii_end,
    trimmed,
};

verus! {

/// An English article.
#[derive(Debug, Clone, Copy, PartialEq, Eq, Structural)]
pub enum EngArticle {
    A,
    An,
    The,
}

/// `s` with its ASCII letters in upper case.
pub open spec fn upper(s: Seq<char>) -> Seq<char> {
    s.map_values(|c: char| ascii_upper(c))
}

/// The article that `s` is, whatever the case of its letters.
pub open spec fn article_of(s: Seq<char>) -> Option<EngArticle> {
    if upper(s) == seq!['A'] {
        Some(EngArticle::A)
    } else if upper(s) == seq!['A', 'N'] {
        Some(EngArticle::An)
    } else if upper(s) == seq!['T', 'H', 'E'] {
        Some(EngArticle::The)
    } else {
        None
    }
}

impl EngArticle {
    /// Reads an article, whatever the case of its letters.
    pub fn from_str(s: &str) -> (article: Option<Self>)
        ensures
            article == article_of(s@),
    {
        let cs = chars_of(s);
        let mut up: Vec<char> = Vec::new();
        let mut i: usize = 0;
        while i < cs.len()
            invariant
                i <= cs.len(),
                up@.len() == i,
                forall|k: int| 0 <= k < i ==> up@[k] == ascii_upper(cs@[k]),
            decreases cs.len() - i,
        {
            up.push(to_ascii_upper(cs[i]));
            i += 1;
        }
        assert(up@ =~= upper(s@));
        if up.len() == 1 && up[0] == 'A' {
            assert(up@ =~= seq!['A']);
            Some(EngArticle::A)
        } else if up.len() == 2 && up[0] == 'A' && up[1] == 'N' {
            assert(up@ =~= seq!['A', 'N']);
            Some(EngArticle::An)
        } else if up.len() == 3 && up[0] == 'T' && up[1] == 'H' && up[2] == 'E' {
            assert(up@ =~= seq!['T', 'H', 'E']);
            Some(EngArticle::The)
        } else {
            assert(upper(s@) != seq!['A']) by {
                if upper(s@) == seq!['A'] {
                    assert(up@[0] == seq!['A'][0]);
                }
            }
            assert(upper(s@) != seq!['A', 'N']) by {
                if upper(s@) == seq!['A', 'N'] {
                    assert(up@[0] == seq!['A', 'N'][0]);
                    assert(up@[1] == seq!['A', 'N'][1]);
                }
            }
            assert(upper(s@) != seq!['T', 'H', 'E']) by {
                if upper(s@) == seq!['T', 'H', 'E'] {
                    assert(up@[0] == seq!['T', 'H', 'E'][0]);
                    assert(up@[1] == seq!['T', 'H', 'E'][1]);
                    assert(up@[2] == seq!['T', 'H', 'E'][2]);
                }
            }
            None
        }
    }
}

/// An English consonant.
#[derive(Debug, Clone, Copy, PartialEq, Eq, Structural)]
pub enum EngConsonant {
    B,
    C,
    D,
    F,
    G,
    H,
    J,
    K,
    L,
    M,
    N,
    P,
    Q,
    R,
    S,
    T,
    V,
    W,
    X,
    Y,
    Z,
}

/// The consonant that the letter `c` is, in either case.
pub open spec fn consonant_of(c: char) -> Option<EngConsonant> {
    let u = ascii_upper(c);
    if u == 'B' {
        Some(EngConsonant::B)
    } else if u == 'C' {
        Some(EngConsonant::C)
    } else if u == 'D' {
        Some(EngConsonant::D)
    } else if u == 'F' {
        Some(EngConsonant::F)
    } else if u == 'G' {
        Some(EngConsonant::G)
    } else if u == 'H' {
        Some(EngConsonant::H)
    } else if u == 'J' {
        Some(EngConsonant::J)
    } else if u == 'K' {
        Some(EngConsonant::K)
    } else if u == 'L' {
        Some(EngConsonant::L)
    } else if u == 'M' {
        Some(EngConsonant::M)
    } else if u == 'N' {
        Some(EngConsonant::N)
    } else if u == 'P' {
        Some(EngConsonant::P)
    } else if u == 'Q' {
        Some(EngConsonant::Q)
    } else if u == 'R' {
        Some(EngConsonant::R)
    } else if u == 'S' {
        Some(EngConsonant::S)
    } else if u == 'T' {
        Some(EngConsonant::T)
    } else if u == 'V' {
        Some(EngConsonant::V)
    } else if u == 'W' {
        Some(EngConsonant::W)
    } else if u == 'X' {
        Some(EngConsonant::X)
    } else if u == 'Y' {
        Some(EngConsonant::Y)
    } else if u == 'Z' {
        Some(EngConsonant::Z)
    } else {
        None
    }
}

impl EngConsonant {
    /// Reads a consonant from a letter in either case.
    pub fn from_char(c: char) -> (consonant: Option<Self>)
        ensures
            consonant == consonant_of(c),
    {
        let u = to_ascii_upper(c);
        if u == 'B' {
            Some(EngConsonant::B)
        } else if u == 'C' {
            Some(EngConsonant::C)
        } else if u == 'D' {
            Some(EngConsonant::D)
        } else if u == 'F' {
            Some(EngConsonant::F)
        } else if u == 'G' {
            Some(EngConsonant::G)
        } else if u == 'H' {
            Some(EngConsonant::H)
        } else if u == 'J' {
            Some(EngConsonant::J)
        } else if u == 'K' {
            Some(EngConsonant::K)
        } else if u == 'L' {
            Some(EngConsonant::L)
        } else if u == 'M' {
            Some(EngConsonant::M)
        } else if u == 'N' {
            Some(EngConsonant::N)
        } else if u == 'P' {
            Some(EngConsonant::P)
        } else if u == 'Q' {
            Some(EngConsonant::Q)
        } else if u == 'R' {
            Some(EngConsonant::R)
        } else if u == 'S' {
            Some(EngConsonant::S)
        } else if u == 'T' {
            Some(EngConsonant::T)
        } else if u == 'V' {
            Some(EngConsonant::V)
        } else if u == 'W' {
            Some(EngConsonant::W)
        } else if u == 'X' {
            Some(EngConsonant::X)
        } else if u == 'Y' {
            Some(EngConsonant::Y)
        } else if u == 'Z' {
            Some(EngConsonant::Z)
        } else {
            None
        }
    }

    /// Whether `c` is a consonant.
    pub fn is_consonant(c: char) -> (r: bool)
        ensures
            r == consonant_of(c) is Some,
    {
        Self::from_char(c).is_some()
    }
}

/// A word in three parts.
#[derive(Debug)]
pub struct Word {
    pub prefix: String,
    pub stem: String,
    pub suffix: String,
}

/// The mathematical content of a [`Word`].
pub ghost struct WordView {
    pub prefix: Seq<char>,
    pub stem: Seq<char>,
    pub suffix: Seq<char>,
}

impl View for Word {
    type V = WordView;

    open spec fn view(&self) -> WordView {
        WordView { prefix: self.prefix@, stem: self.stem@, suffix: self.suffix@ }
    }
}

/// The first known prefix that `word` begins with; empty where it begins
/// with none.
pub open spec fn known_prefix(word: Seq<char>) -> Seq<char> {
    if begins_with(word, "ex"@) {
        "ex"@
    } else if begins_with(word, "pre"@) {
        "pre"@
    } else if begins_with(word, "post"@) {
        "post"@
    } else if begins_with(word, "re"@) {
        "re"@
    } else if begins_with(word, "un"@) {
        "un"@
    } else {
        Seq::empty()
    }
}

/// The first known suffix that `word` ends with; empty where it ends with
/// none.
pub open spec fn known_suffix(word: Seq<char>) -> Seq<char> {
    if finishes_with(word, "ed"@) {
        "ed"@
    } else if finishes_with(word, "ing"@) {
        "ing"@
    } else if finishes_with(word, "er"@) {
        "er"@
    } else if finishes_with(word, "est"@) {
        "est"@
    } else if finishes_with(word, "ly"@) {
        "ly"@
    } else {
        Seq::empty()
    }
}

/// A suffix before which English doubles a final consonant.
pub open spec fn doubles_consonant(suffix: Seq<char>) -> bool {
    suffix == "ing"@ || suffix == "est"@ || suffix == "er"@ || suffix == "ed"@
}

/// `stem` without its last letter, where that is a consonant and the
/// suffix is one that doubles it.
pub open spec fn undoubled(stem: Seq<char>, suffix: Seq<char>) -> Seq<char> {
    if stem.len() > 0 && consonant_of(stem.last()) is Some && doubles_consonant(suffix) {
        stem.drop_last()
    } else {
        stem
    }
}

/// The length of `w` in bytes.
pub open spec fn byte_len(w: Seq<char>) -> nat {
    vstd::utf8::encode_utf8(w).len()
}

/// `i` is the first of the shortest words of `words` that begin with
/// `stem`.
pub open spec fn is_closest(words: Seq<Seq<char>>, stem: Seq<char>, i: int) -> bool {
    &&& 0 <= i < words.len()
    &&& begins_with(words[i], stem)
    &&& forall|j: int|
        0 <= j < words.len() && begins_with(#[trigger] words[j], stem) ==> byte_len(words[i])
            <= byte_len(words[j])
    &&& forall|j: int|
        0 <= j < i && begins_with(#[trigger] words[j], stem) ==> byte_len(words[i]) < byte_len(
            words[j],
        )
}

/// The first of the shortest words that begin with `stem`, or `stem`
/// where no word does.
pub open spec fn closest_word(words: Seq<Seq<char>>, stem: Seq<char>) -> Seq<char> {
    if exists|i: int| is_closest(words, stem, i) {
        words[choose|i: int| is_closest(words, stem, i)]
    } else {
        stem
    }
}

/// The three parts of `word`.
pub open spec fn parts_of(word: Seq<char>, words: Seq<Seq<char>>) -> WordView {
    if article_of(word) is Some {
        WordView { prefix: Seq::empty(), stem: word, suffix: Seq::empty() }
    } else {
        let prefix = known_prefix(word);
        let rest = word.skip(prefix.len() as int);
        let suffix = known_suffix(rest);
        let core = rest.take(rest.len() - suffix.len());
        WordView { prefix, stem: closest_word(words, undoubled(core, suffix)), suffix }
    }
}

/// Finds the first known prefix that `word` begins with.
pub fn find_known_prefix(word: &str) -> (prefix: &'static str)
    ensures
        prefix@ == known_prefix(word@),
        prefix@.len() <= word@.len(),
{
    if starts_with(word, "ex") {
        "ex"
    } else if starts_with(word, "pre") {
        "pre"
    } else if starts_with(word, "post") {
        "post"
    } else if starts_with(word, "re") {
        "re"
    } else if starts_with(word, "un") {
        "un"
    } else {
        proof {
            reveal_strlit("");
        }
        assert(""@ =~= Seq::<char>::empty());
        ""
    }
}

/// Finds the first known suffix that `word` ends with.
pub fn find_known_suffix(word: &str) -> (suffix: &'static str)
    ensures
        suffix@ == known_suffix(word@),
        suffix@.len() <= word@.len(),
{
    if ends_with(word, "ed") {
        "ed"
    } else if ends_with(word, "ing") {
        "ing"
    } else if ends_with(word, "er") {
        "er"
    } else if ends_with(word, "est") {
        "est"
    } else if ends_with(word, "ly") {
        "ly"
    } else {
        proof {
            reveal_strlit("");
        }
        assert(""@ =~= Seq::<char>::empty());
        ""
    }
}

/// Finds the first of the shortest words that begin with `stem`.
pub fn find_closest(words: &Vec<String>, stem: &str) -> (found: Option<usize>)
    ensures
        match found {
            Some(i) => is_closest(words.deep_view(), stem@, i as int),
            None => forall|j: int|
                0 <= j < words.len() ==> !begins_with(#[trigger] words.deep_view()[j], stem@),
        },
{
    let ghost all = words.deep_view();
    let mut best: Option<usize> = None;
    let mut k: usize = 0;
    while k < words.len()
        invariant
            k <= words.len(),
            all == words.deep_view(),
            match best {
                Some(i) => {
                    &&& i < k
                    &&& begins_with(all[i as int], stem@)
                    &&& forall|j: int|
                        0 <= j < k && begins_with(#[trigger] all[j], stem@) ==> byte_len(
                            all[i as int],
                        ) <= byte_len(all[j])
                    &&& forall|j: int|
                        0 <= j < i && begins_with(#[trigger] all[j], stem@) ==> byte_len(
                            all[i as int],
                        ) < byte_len(all[j])
                },
                None => forall|j: int| 0 <= j < k ==> !begins_with(#[trigger] all[j], stem@),
            },
        decreases words.len() - k,
    {
        let candidate = words[k].as_str();
        assert(all[k as int] == candidate@);
        if starts_with(candidate, stem) {
            match best {
                None => {
                    best = Some(k);
                },
                Some(i) => {
                    assert(all[i as int] == words@[i as int]@);
                    if candidate.as_bytes().len() < words[i].as_str().as_bytes().len() {
                        best = Some(k);
                    }
                },
            }
        }
        k += 1;
    }
    best
}

impl Word {
    /// A word of three empty parts.
    pub fn new() -> (word: Word)
        ensures
            word@.prefix.len() == 0,
            word@.stem.len() == 0,
            word@.suffix.len() == 0,
    {
        Word { prefix: String::new(), stem: String::new(), suffix: String::new() }
    }

    /// Takes `word` apart, with `wordlist` to pick the stem from.
    pub fn from(word: &str, wordlist: &Vec<String>) -> (parts: Word)
        ensures
            parts@ == parts_of(word@, wordlist.deep_view()),
    {
        if EngArticle::from_str(word).is_some() {
            return Word { prefix: String::new(), stem: word.to_owned(), suffix: String::new() };
        }
        let prefix = find_known_prefix(word);
        let rest = skip_chars(word, prefix.unicode_len());
        let suffix = find_known_suffix(rest.as_str());
        let core_len = rest.as_str().unicode_len() - suffix.unicode_len();
        let mut core = take_chars(rest.as_str(), core_len);
        let doubles = same_text(suffix, "ing") || same_text(suffix, "est") || same_text(
            suffix,
            "er",
        ) || same_text(suffix, "ed");
        if core_len > 0 && doubles && EngConsonant::is_consonant(
            core.as_str().get_char(core_len - 1),
        ) {
            core = take_chars(core.as_str(), core_len - 1);
            assert(core@ =~= rest@.take(core_len as int).drop_last());
        }
        let stem = match find_closest(wordlist, core.as_str()) {
            Some(i) => {
                proof {
                    let all = wordlist.deep_view();
                    let chosen = choose|c: int| is_closest(all, core@, c);
                    assert(is_closest(all, core@, i as int));
                    assert(chosen == i) by {
                        if chosen < i {
                            assert(begins_with(all[chosen], core@));
                        }
                        if i < chosen {
                            assert(begins_with(all[i as int], core@));
                        }
                    }
                }
                wordlist[i].clone()
            },
            None => core,
        };
        Word { prefix: String::from_str(prefix), stem, suffix: String::from_str(suffix) }
    }

    /// The word put together again.
    pub fn to_text(&self) -> (text: String)
        ensures
            text@ == self@.prefix + self@.stem + self@.suffix,
    {
        self.prefix.clone().concat(self.stem.as_str()).concat(self.suffix.as_str())
    }
}

/// The stems of `words`, in their order.
pub open spec fn stems_of(words: Seq<Seq<char>>, wordlist: Seq<Seq<char>>) -> Seq<Seq<char>> {
    words.map_values(|w: Seq<char>| parts_of(w, wordlist).stem)
}

/// Stems every word of `words`.
pub fn stem_words(words: &Vec<String>, wordlist: &Vec<String>) -> (stems: Vec<String>)
    ensures
        stems.deep_view() == stems_of(words.deep_view(), wordlist.deep_view()),
{
    let mut stems: Vec<String> = Vec::new();
    let mut i: usize = 0;
    while i < words.len()
        invariant
            i <= words.len(),
            stems@.len() == i,
            forall|k: int|
                0 <= k < i ==> (#[trigger] stems@[k])@ == parts_of(
                    words@[k]@,
                    wordlist.deep_view(),
                ).stem,
        decreases words.len() - i,
    {
        let word = Word::from(words[i].as_str(), wordlist);
        stems.push(word.stem);
        i += 1;
    }
    assert(stems.deep_view() =~= stems_of(words.deep_view(), wordlist.deep_view()));
    stems
}

/// The words of a comma-separated list, white space at the two ends of
/// the list left out.
pub open spec fn wordlist_of(text: Seq<char>) -> Seq<Seq<char>> {
    split_at(trimmed(text), ',')
}

/// Reads a comma-separated word list, in the order in which it is written.
pub fn read_wordlist(text: &str) -> (words: Vec<String>)
    ensures
        words.deep_view() == wordlist_of(text@),
{
    let body = trim(text);
    split(body.as_str(), ',')
}

/// The line that holds the stems of `words`: the stems with a space
/// between neighbours, ASCII white space at the end left out, and a
/// newline behind it unless none is wanted.
pub open spec fn stem_output(
    words: Seq<Seq<char>>,
    wordlist: Seq<Seq<char>>,
    nonewline: bool,
) -> Seq<char> {
    let line = join_with_spaces(stems_of(words, wordlist));
    let shown = line.take(ascii_trim_end_at(line));
    if nonewline {
        shown
    } else {
        shown.push('\n')
    }
}

/// Writes the line that holds the stems of `words`.
pub fn stem_line(words: &Vec<String>, wordlist: &Vec<String>, nonewline: bool) -> (line: String)
    ensures
        line@ == stem_output(words.deep_view(), wordlist.deep_view(), nonewline),
{
    let stems = stem_words(words, wordlist);
    let joined = join_spaces(&stems);
    let mut line = trim_ascii_end(joined.as_str());
    if !nonewline {
        line.push('\n');
    }
    line
}

} // verus!
