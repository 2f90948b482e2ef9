//! Turning tabs into spaces.

use vstd::prelude::*;
use crate::text::{chars_of, parse_decimal, parse_unsigned, same_text, string_from_chars};

verus! {

/// The file that stands for the standard input.
pub const STANDARD_INPUT: &'static str = "/dev/stdin";

/// The file to read: the standard input for `-`, else the one named.
pub open spec fn input_file(file: Seq<char>) -> Seq<char> {
    if file == "-"@ {
        STANDARD_INPUT@
    } else {
        file
    }
}

/// The file to read.
pub fn file_to_read(file: &str) -> (path: String)
    ensures
        path@ == input_file(file@),
{
    if same_text(file, "-") {
        STANDARD_INPUT.to_owned()
    } else {
        file.to_owned()
    }
}

/// The width that `tab` writes, where it writes a number that a machine
/// word holds.
pub open spec fn tab_width(tab: Seq<char>) -> Option<nat> {
    parse_unsigned(tab, usize::MAX as nat)
}

/// How many spaces stand for a tab: the sum of the widths, up to the first
/// entry that is no number.
pub open spec fn filler_width(tabs: Seq<Seq<char>>) -> nat
    decreases tabs.len(),
{
    if tabs.len() == 0 {
        0
    } else {
        match tab_width(tabs[0]) {
            Some(width) => width + filler_width(tabs.skip(1)),
            None => 0,
        }
    }
}

/// `content` with every tab replaced by `width` spaces.
pub open spec fn expanded(content: Seq<char>, width: nat) -> Seq<char>
    decreases content.len(),
{
    if content.len() == 0 {
        content
    } else if content.last() == '\t' {
        expanded(content.drop_last(), width) + Seq::new(width, |i: int| ' ')
    } else {
        expanded(content.drop_last(), width).push(content.last())
    }
}

/// What `expand` writes for `content`: the tabs replaced, and a newline
/// behind it all.
pub open spec fn expand_output(content: Seq<char>, tabs: Seq<Seq<char>>) -> Seq<char> {
    expanded(content, filler_width(tabs)).push('\n')
}

/// The widths of the leading entries of `tabs` that are numbers.
pub fn filler_widths(tabs: &Vec<String>) -> (widths: Vec<usize>)
    ensures
        widths.len() <= tabs.len(),
        forall|i: int|
            0 <= i < widths.len() ==> tab_width(#[trigger] tabs.deep_view()[i]) == Some(
                widths@[i] as nat,
            ),
        widths.len() < tabs.len() ==> tab_width(tabs.deep_view()[widths.len() as int]) is None,
{
    let mut widths: Vec<usize> = Vec::new();
    let mut i: usize = 0;
    while i < tabs.len()
        invariant
            i <= tabs.len(),
            widths.len() == i,
            forall|k: int|
                0 <= k < i ==> tab_width(#[trigger] tabs.deep_view()[k]) == Some(widths@[k] as nat),
        decreases tabs.len() - i,
    {
        assert(tabs.deep_view()[i as int] == tabs@[i as int]@);
        match parse_decimal(tabs[i].as_str(), usize::MAX as u64) {
            Some(n) => {
                widths.push(n as usize);
            },
            None => {
                return widths;
            },
        }
        i += 1;
    }
    widths
}

/// The sum of the first `n` of `widths`.
pub open spec fn width_sum(widths: Seq<usize>, n: int) -> nat
    decreases n,
{
    if n <= 0 || n > widths.len() {
        0
    } else {
        width_sum(widths, n - 1) + widths[n - 1] as nat
    }
}

/// The widths found are those that `filler_width` adds up.
pub proof fn lemma_filler_width(tabs: Seq<Seq<char>>, widths: Seq<usize>)
    requires
        widths.len() <= tabs.len(),
        forall|i: int|
            0 <= i < widths.len() ==> tab_width(#[trigger] tabs[i]) == Some(widths[i] as nat),
        widths.len() < tabs.len() ==> tab_width(tabs[widths.len() as int]) is None,
    ensures
        filler_width(tabs) == width_sum(widths, widths.len() as int),
    decreases tabs.len(),
{
    if tabs.len() > 0 && widths.len() > 0 {
        let rest_tabs = tabs.skip(1);
        let rest = widths.skip(1);
        assert forall|i: int| 0 <= i < rest.len() implies tab_width(#[trigger] rest_tabs[i])
            == Some(rest[i] as nat) by {
            assert(rest_tabs[i] == tabs[i + 1]);
        }
        if rest.len() < rest_tabs.len() {
            assert(rest_tabs[rest.len() as int] == tabs[widths.len() as int]);
        }
        lemma_filler_width(rest_tabs, rest);
        lemma_width_sum_shift(widths, widths.len() as int);
    }
}

/// Summing from the front and from the back give the same.
proof fn lemma_width_sum_shift(widths: Seq<usize>, n: int)
    requires
        1 <= n <= widths.len(),
    ensures
        width_sum(widths, n) == widths[0] as nat + width_sum(widths.skip(1), n - 1),
    decreases n,
{
    if n > 1 {
        lemma_width_sum_shift(widths, n - 1);
        assert(widths.skip(1)[n - 2] == widths[n - 1]);
    } else {
        assert(width_sum(widths, 0) == 0);
        assert(width_sum(widths.skip(1), 0) == 0);
    }
}

/// Replaces every tab of `content` by the spaces that `tabs` asks for, and
/// ends the text with a newline.
pub fn expand_text(content: &str, tabs: &Vec<String>) -> (text: String)
    ensures
        text@ == expand_output(content@, tabs.deep_view()),
{
    let widths = filler_widths(tabs);
    proof {
        lemma_filler_width(tabs.deep_view(), widths@);
    }
    let ghost width = filler_width(tabs.deep_view());
    let cs = chars_of(content);
    let mut out: Vec<char> = Vec::new();
    let mut i: usize = 0;
    assert(cs@.take(0) =~= Seq::<char>::empty());
    while i < cs.len()
        invariant
            i <= cs.len(),
            width == width_sum(widths@, widths.len() as int),
            out@ == expanded(cs@.take(i as int), width),
        decreases cs.len() - i,
    {
        let ghost head = cs@.take(i + 1);
        assert(head.drop_last() =~= cs@.take(i as int));
        assert(head.last() == cs@[i as int]);
        let ghost before = out@;
        if cs[i] == '\t' {
            let mut w: usize = 0;
            let ghost mut written: nat = 0;
            while w < widths.len()
                invariant
                    w <= widths.len(),
                    written == width_sum(widths@, w as int),
                    out@ == before + Seq::new(written, |k: int| ' '),
                decreases widths.len() - w,
            {
                let ghost at_entry = out@;
                let mut k: usize = 0;
                while k < widths[w]
                    invariant
                        w < widths.len(),
                        k <= widths@[w as int],
                        out@ == at_entry + Seq::new(k as nat, |j: int| ' '),
                    decreases widths@[w as int] - k,
                {
                    out.push(' ');
                    k += 1;
                    assert(out@ =~= at_entry + Seq::new(k as nat, |j: int| ' '));
                }
                proof {
                    let more = widths@[w as int] as nat;
                    assert(out@ =~= before + Seq::new(written + more, |k: int| ' '));
                    written = written + more;
                }
                w += 1;
            }
        } else {
            out.push(cs[i]);
        }
        i += 1;
    }
    assert(cs@.take(cs.len() as int) =~= cs@);
    out.push('\n');
    string_from_chars(&out)
}

} // verus!
