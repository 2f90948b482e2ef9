//! The text that `echo` writes: the words joined by spaces, a newline
//! behind them, and backslash escapes replaced by what they stand for.

use vstd::prelude::*;
use crate::text::{chars_of, join_spaces, join_with_spaces, string_from_chars};

verus! {

/// `s` with every `\` that is followed by `code` replaced, together with
/// the `code`, by `to`. The text is read from the left, and what was
/// replaced is not read again.
pub open spec fn replace_escape(s: Seq<char>, code: char, to: Seq<char>) -> Seq<char>
    decreases s.len(),
{
    if s.len() == 0 {
        s
    } else if s.len() >= 2 && s[0] == '\\' && s[1] == code {
        to + replace_escape(s.skip(2), code, to)
    } else {
        seq![s[0]] + replace_escape(s.skip(1), code, to)
    }
}

/// The value of a hexadecimal digit.
pub open spec fn hex_digit(c: char) -> Option<u8> {
    if '0' <= c && c <= '9' {
        Some((c as u8 - '0' as u8) as u8)
    } else if 'a' <= c && c <= 'f' {
        Some((c as u8 - 'a' as u8 + 10) as u8)
    } else if 'A' <= c && c <= 'F' {
        Some((c as u8 - 'A' as u8 + 10) as u8)
    } else {
        None
    }
}

/// The byte that up to two characters write in base sixteen: one digit,
/// two digits, or a `+` and one digit.
pub open spec fn hex_byte(hex: Seq<char>) -> Option<u8> {
    if hex.len() == 1 {
        hex_digit(hex[0])
    } else if hex.len() == 2 {
        match (hex_digit(hex[0]), hex_digit(hex[1])) {
            (Some(high), Some(low)) => Some((high * 16 + low) as u8),
            (None, Some(low)) if hex[0] == '+' => Some(low),
            _ => None,
        }
    } else {
        None
    }
}

/// The up to two characters that follow a `\x` at the head of `s`.
pub open spec fn hex_operand(s: Seq<char>) -> Seq<char> {
    s.subrange(2, if s.len() >= 4 { 4 } else { s.len() as int })
}

/// `s` with every `\x` and the up to two characters behind it replaced by
/// the character whose code they write in base sixteen. Where they write
/// none, the `\x` and the characters stay.
pub open spec fn decode_hex_escapes(s: Seq<char>) -> Seq<char>
    decreases s.len(),
{
    if s.len() == 0 {
        s
    } else if s.len() >= 2 && s[0] == '\\' && s[1] == 'x' {
        let hex = hex_operand(s);
        let decoded = match hex_byte(hex) {
            Some(byte) => seq![byte as char],
            None => seq!['\\', 'x'] + hex,
        };
        decoded + decode_hex_escapes(s.skip(2 + hex.len() as int))
    } else {
        seq![s[0]] + decode_hex_escapes(s.skip(1))
    }
}

/// `s` with its escapes interpreted: the two-character escapes one kind
/// after the other, each over the whole text, and the `\x` escapes last.
pub open spec fn interpret_escapes(s: Seq<char>) -> Seq<char> {
    let s = replace_escape(s, '\\', seq!['\\']);
    let s = replace_escape(s, 'a', seq!['\x07']);
    let s = replace_escape(s, 'b', seq!['\x08']);
    let s = replace_escape(s, 'c', Seq::empty());
    let s = replace_escape(s, 'e', seq!['\x1B']);
    let s = replace_escape(s, 'f', seq!['\x0C']);
    let s = replace_escape(s, 'n', seq!['\n']);
    let s = replace_escape(s, 'r', seq!['\r']);
    let s = replace_escape(s, 't', seq!['\t']);
    let s = replace_escape(s, 'v', seq!['\x0B']);
    let s = replace_escape(s, '0', seq!['\0']);
    decode_hex_escapes(s)
}

/// What `echo` writes for `words`.
pub open spec fn echo_output(
    words: Seq<Seq<char>>,
    nonewline: bool,
    disable_backslash_escapes: bool,
    enable_backslash_escapes: bool,
) -> Seq<char> {
    let joined = join_with_spaces(words);
    let line = if nonewline {
        joined
    } else {
        joined.push('\n')
    };
    if disable_backslash_escapes || !enable_backslash_escapes {
        interpret_escapes(line)
    } else {
        line
    }
}

/// Replaces every `\` followed by `code`, together with the `code`, by
/// `to`, if there is a `to`, and by nothing if not.
pub fn replace_escape_in(s: &Vec<char>, code: char, to: Option<char>) -> (out: Vec<char>)
    ensures
        out@ == replace_escape(
            s@,
            code,
            match to {
                Some(c) => seq![c],
                None => Seq::empty(),
            },
        ),
{
    let ghost sub = match to {
        Some(c) => seq![c],
        None => Seq::empty(),
    };
    let mut out: Vec<char> = Vec::new();
    let mut i: usize = 0;
    assert(s@.skip(0) =~= s@);
    while i < s.len()
        invariant
            i <= s.len(),
            sub == match to {
                Some(c) => seq![c],
                None => Seq::<char>::empty(),
            },
            out@ + replace_escape(s@.skip(i as int), code, sub) == replace_escape(s@, code, sub),
        decreases s.len() - i,
    {
        let ghost rest = s@.skip(i as int);
        assert(rest[0] == s@[i as int]);
        if i + 1 < s.len() && s[i] == '\\' && s[i + 1] == code {
            assert(rest[1] == s@[i + 1]);
            assert(rest.skip(2) =~= s@.skip(i + 2));
            let ghost before = out@;
            match to {
                Some(c) => {
                    out.push(c);
                },
                None => {},
            }
            assert(out@ =~= before + sub);
            assert(out@ + replace_escape(s@.skip(i + 2), code, sub) =~= before + (sub
                + replace_escape(s@.skip(i + 2), code, sub)));
            i += 2;
        } else {
            if i + 1 < s.len() {
                assert(rest[1] == s@[i + 1]);
            }
            assert(rest.skip(1) =~= s@.skip(i + 1));
            let ghost before = out@;
            out.push(s[i]);
            assert(out@ + replace_escape(s@.skip(i + 1), code, sub) =~= before + (seq![
                s@[i as int],
            ] + replace_escape(s@.skip(i + 1), code, sub)));
            i += 1;
        }
    }
    assert(s@.skip(s.len() as int).len() == 0);
    assert(out@ + Seq::<char>::empty() =~= out@);
    out
}

/// The value of a hexadecimal digit.
pub fn hex_digit_value(c: char) -> (v: Option<u8>)
    ensures
        v == hex_digit(c),
        v matches Some(d) ==> d < 16,
{
    if '0' <= c && c <= '9' {
        Some((c as u8) - ('0' as u8))
    } else if 'a' <= c && c <= 'f' {
        Some((c as u8) - ('a' as u8) + 10)
    } else if 'A' <= c && c <= 'F' {
        Some((c as u8) - ('A' as u8) + 10)
    } else {
        None
    }
}

/// Reads the operand of a `\x` escape: `s[from..to]`, at most two
/// characters.
pub fn hex_byte_of(s: &Vec<char>, from: usize, to: usize) -> (byte: Option<u8>)
    requires
        from <= to <= s.len(),
        to - from <= 2,
    ensures
        byte == hex_byte(s@.subrange(from as int, to as int)),
{
    let ghost hex = s@.subrange(from as int, to as int);
    if to - from == 1 {
        assert(hex[0] == s@[from as int]);
        hex_digit_value(s[from])
    } else if to - from == 2 {
        assert(hex[0] == s@[from as int]);
        assert(hex[1] == s@[from + 1]);
        let high = hex_digit_value(s[from]);
        let low = hex_digit_value(s[from + 1]);
        match (high, low) {
            (Some(h), Some(l)) => Some(h * 16 + l),
            (None, Some(l)) => {
                if s[from] == '+' {
                    Some(l)
                } else {
                    None
                }
            },
            _ => None,
        }
    } else {
        None
    }
}

/// Replaces the `\x` escapes of `s` by the characters they write.
pub fn decode_hex_escapes_in(s: &Vec<char>) -> (out: Vec<char>)
    ensures
        out@ == decode_hex_escapes(s@),
{
    let mut out: Vec<char> = Vec::new();
    let mut i: usize = 0;
    assert(s@.skip(0) =~= s@);
    while i < s.len()
        invariant
            i <= s.len(),
            out@ + decode_hex_escapes(s@.skip(i as int)) == decode_hex_escapes(s@),
        decreases s.len() - i,
    {
        let ghost rest = s@.skip(i as int);
        let ghost before = out@;
        assert(rest[0] == s@[i as int]);
        if i + 1 < s.len() && s[i] == '\\' && s[i + 1] == 'x' {
            assert(rest[1] == s@[i + 1]);
            let end: usize = if s.len() - i >= 4 {
                i + 4
            } else {
                s.len()
            };
            let ghost hex = hex_operand(rest);
            assert(hex =~= s@.subrange(i + 2, end as int));
            assert(rest.skip(2 + hex.len() as int) =~= s@.skip(end as int));
            match hex_byte_of(s, i + 2, end) {
                Some(byte) => {
                    out.push(byte as char);
                    assert(out@ + decode_hex_escapes(s@.skip(end as int)) =~= before + (seq![
                        byte as char,
                    ] + decode_hex_escapes(s@.skip(end as int))));
                },
                None => {
                    out.push('\\');
                    out.push('x');
                    let mut k: usize = i + 2;
                    while k < end
                        invariant
                            i + 2 <= k <= end <= s.len(),
                            out@ == before + seq!['\\', 'x'] + s@.subrange(i + 2, k as int),
                        decreases end - k,
                    {
                        out.push(s[k]);
                        assert(s@.subrange(i + 2, k + 1) =~= s@.subrange(i + 2, k as int).push(
                            s@[k as int],
                        ));
                        k += 1;
                    }
                    assert(out@ + decode_hex_escapes(s@.skip(end as int)) =~= before + ((seq![
                        '\\',
                        'x',
                    ] + hex) + decode_hex_escapes(s@.skip(end as int))));
                },
            }
            i = end;
        } else {
            if i + 1 < s.len() {
                assert(rest[1] == s@[i + 1]);
            }
            assert(rest.skip(1) =~= s@.skip(i + 1));
            out.push(s[i]);
            assert(out@ + decode_hex_escapes(s@.skip(i + 1)) =~= before + (seq![s@[i as int]]
                + decode_hex_escapes(s@.skip(i + 1))));
            i += 1;
        }
    }
    assert(s@.skip(s.len() as int).len() == 0);
    assert(out@ + Seq::<char>::empty() =~= out@);
    out
}

/// Interprets the escapes of `s`.
pub fn interpret_escapes_in(s: &Vec<char>) -> (out: Vec<char>)
    ensures
        out@ == interpret_escapes(s@),
{
    let s = replace_escape_in(s, '\\', Some('\\'));
    let s = replace_escape_in(&s, 'a', Some('\x07'));
    let s = replace_escape_in(&s, 'b', Some('\x08'));
    let s = replace_escape_in(&s, 'c', None);
    let s = replace_escape_in(&s, 'e', Some('\x1B'));
    let s = replace_escape_in(&s, 'f', Some('\x0C'));
    let s = replace_escape_in(&s, 'n', Some('\n'));
    let s = replace_escape_in(&s, 'r', Some('\r'));
    let s = replace_escape_in(&s, 't', Some('\t'));
    let s = replace_escape_in(&s, 'v', Some('\x0B'));
    let s = replace_escape_in(&s, '0', Some('\0'));
    decode_hex_escapes_in(&s)
}

/// The text that `echo` writes for `words`.
pub fn echo_text(
    words: &Vec<String>,
    nonewline: bool,
    disable_backslash_escapes: bool,
    enable_backslash_escapes: bool,
) -> (text: String)
    ensures
        text@ == echo_output(
            words.deep_view(),
            nonewline,
            disable_backslash_escapes,
            enable_backslash_escapes,
        ),
{
    let mut line = join_spaces(words);
    if !nonewline {
        line.push('\n');
    }
    if disable_backslash_escapes || !enable_backslash_escapes {
        let chars = chars_of(line.as_str());
        let out = interpret_escapes_in(&chars);
        string_from_chars(&out)
    } else {
        line
    }
}

} // verus!
