//! `KEY=VALUE` pairs, as an environment holds them.

use vstd::prelude::*;
use vstd::string::StringExecFns;
use crate::text::{chars_of, find_char, first_index_of};

verus! {

/// Accepts `s` as a key-value pair where it holds a `=`.
pub fn parse_kv_pair(s: &str) -> (r: Result<String, String>)
    ensures
        match r {
            Ok(pair) => s@.contains('=') && pair@ == s@,
            Err(message) => !s@.contains('=') && message@ == "Invalid key-value pair: "@ + s@,
        },
{
    let cs = chars_of(s);
    let i = find_char(&cs, '=', 0);
    if i < cs.len() {
        assert(s@[i as int] == '=');
        Ok(s.to_owned())
    } else {
        Err(String::from_str("Invalid key-value pair: ").concat(s))
    }
}

/// A key and its value, borrowed from the line that held them.
#[derive(Debug)]
pub struct KVPair<'a> {
    pub key: &'a str,
    pub value: &'a str,
}

/// Why a line is no key-value pair.
#[derive(Debug, Clone, Copy, PartialEq, Eq, Structural)]
pub enum KVError {
    /// The line holds no `=`.
    MissingSeparator,
}

impl<'a> KVPair<'a> {
    pub fn from(key: &'a str, value: &'a str) -> (pair: Self)
        ensures
            pair.key@ == key@,
            pair.value@ == value@,
    {
        Self { key, value }
    }

    /// Splits `line` at its first `=`: the key stands before it, the value
    /// behind it.
    pub fn parse(line: &'a str) -> (r: Result<Self, KVError>)
        ensures
            match r {
                Ok(pair) => {
                    let at = first_index_of(line@, '=');
                    &&& line@.contains('=')
                    &&& pair.key@ == line@.take(at)
                    &&& pair.value@ == line@.skip(at + 1)
                },
                Err(e) => !line@.contains('=') && e == KVError::MissingSeparator,
            },
    {
        let cs = chars_of(line);
        let n = cs.len();
        let i = find_char(&cs, '=', 0);
        assert(cs@.subrange(0, n as int) =~= line@);
        if i < n {
            assert(line@[i as int] == '=');
            let key = line.substring_char(0, i);
            let value = line.substring_char(i + 1, n);
            assert(line@.subrange(0, i as int) =~= line@.take(i as int));
            assert(line@.subrange(i + 1, n as int) =~= line@.skip(i + 1));
            Ok(Self { key, value })
        } else {
            Err(KVError::MissingSeparator)
        }
    }

    /// The pair written as `key=value`.
    pub fn as_string(&self) -> (s: String)
        ensures
            s@ == self.key@ + seq!['='] + self.value@,
    {
        proof {
            reveal_strlit("=");
        }
        let s = String::from_str(self.key).concat("=").concat(self.value);
        assert("="@ =~= seq!['=']);
        s
    }
}

} // verus!
