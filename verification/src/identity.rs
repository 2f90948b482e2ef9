//! Identity resolution: from a `user[:group]` specification to numeric ids.
//!
//! A specification names a user and, optionally, a group, each either by
//! number or by name. Two numbers are taken as they stand. Anything else is
//! checked against an identity database: the one of the system, or a seeded
//! [`IdentityDb`]. What a resolution returns is a function of the
//! specification and of what the database answered, [`resolve_with`].

use vstd::prelude::*;
use vstd::string::StringExecFns;
use crate::text::{
    chars_of,
    find_char,
    first_index_of,
    parse_decimal,
    parse_unsigned,
    split,
    split_at,
    trim,
    trimmed,
};

verus! {

/// A user and an optional group, as the caller wrote them.
#[derive(Debug, Clone)]
pub struct UserGroupPair {
    pub user: String,
    pub group: Option<String>,
}

/// The mathematical content of a [`UserGroupPair`].
pub ghost struct IdentitySpec {
    pub user: Seq<char>,
    pub group: Option<Seq<char>>,
}

impl View for UserGroupPair {
    type V = IdentitySpec;

    open spec fn view(&self) -> IdentitySpec {
        IdentitySpec {
            user: self.user@,
            group: match self.group {
                Some(g) => Some(g@),
                None => None,
            },
        }
    }
}

/// The numeric identity a process is to run under.
#[derive(Debug, Clone, Copy, PartialEq, Eq, Structural)]
pub struct ResolvedIdentity {
    pub uid: u32,
    pub gid: u32,
}

/// The id of the conventional unprivileged user and group, "nobody".
pub const NOBODY: u32 = 65534;

/// Why a specification names no identity that the database knows.
#[derive(Debug, Clone, Copy, PartialEq, Eq, Structural)]
pub enum IdentityError {
    /// The user was given by number and no user has it.
    NoSuchUserId(u32),
    /// The user was given by name and no user has it.
    NoSuchUserName,
    /// The group was given by number and no group has it.
    NoSuchGroupId(u32),
    /// The group was given by name and no group has it.
    NoSuchGroupName,
    /// No group was given and the user with this id has no entry to take
    /// the primary group from.
    NoPrimaryGroup(u32),
}

/// What the logic reads of a user's entry in the database.
#[derive(Debug, Clone, Copy, PartialEq, Eq, Structural)]
pub struct UserEntry {
    pub uid: u32,
    pub primary_gid: u32,
}

/// What the database answered to the questions of one resolution.
#[derive(Debug, Clone, Copy, PartialEq, Eq, Structural)]
pub struct Answers {
    /// The entry of the user that the specification names, by number or by
    /// name, where there is one.
    pub user: Option<UserEntry>,
    /// The id of the group that the specification names, where it names one
    /// and the database has it.
    pub group: Option<u32>,
    /// The entry found under the resolved user id, asked for only where the
    /// specification names no group.
    pub owner: Option<UserEntry>,
}

/// The id that `s` writes, where it writes one: an optional `+`, then
/// decimal digits of a value that fits in 32 bits.
pub open spec fn id_of(s: Seq<char>) -> Option<u32> {
    match parse_unsigned(s, u32::MAX as nat) {
        Some(n) => Some(n as u32),
        None => None,
    }
}

/// Both ids, where user and group are both given by number.
pub open spec fn numeric_pair(spec: IdentitySpec) -> Option<(u32, u32)> {
    match (id_of(spec.user), spec.group) {
        (Some(uid), Some(g)) => match id_of(g) {
            Some(gid) => Some((uid, gid)),
            None => None,
        },
        _ => None,
    }
}

/// The user id: a number stands for itself once an entry with it was
/// found, a name stands for the id of the entry found under it.
pub open spec fn resolve_user(user: Seq<char>, found: Option<UserEntry>) -> Result<
    u32,
    IdentityError,
> {
    match id_of(user) {
        Some(uid) => if found is Some {
            Ok(uid)
        } else {
            Err(IdentityError::NoSuchUserId(uid))
        },
        None => match found {
            Some(entry) => Ok(entry.uid),
            None => Err(IdentityError::NoSuchUserName),
        },
    }
}

/// The group id: that of the named group once it was found, or the primary
/// group of the resolved user where no group is named.
pub open spec fn resolve_group(
    group: Option<Seq<char>>,
    uid: u32,
    found: Option<u32>,
    owner: Option<UserEntry>,
) -> Result<u32, IdentityError> {
    match group {
        Some(g) => match id_of(g) {
            Some(gid) => if found is Some {
                Ok(gid)
            } else {
                Err(IdentityError::NoSuchGroupId(gid))
            },
            None => match found {
                Some(gid) => Ok(gid),
                None => Err(IdentityError::NoSuchGroupName),
            },
        },
        None => match owner {
            Some(entry) => Ok(entry.primary_gid),
            None => Err(IdentityError::NoPrimaryGroup(uid)),
        },
    }
}

/// The outcome of a resolution, given what the database answered.
pub open spec fn resolve_with(spec: IdentitySpec, answers: Answers) -> Result<
    (u32, u32),
    IdentityError,
> {
    match numeric_pair(spec) {
        Some(ids) => Ok(ids),
        None => match resolve_user(spec.user, answers.user) {
            Err(e) => Err(e),
            Ok(uid) => match resolve_group(spec.group, uid, answers.group, answers.owner) {
                Err(e) => Err(e),
                Ok(gid) => Ok((uid, gid)),
            },
        },
    }
}

/// How a `user[:group]` token splits: without a colon it is all user; with
/// one colon the user stands before it and the group, unless it is empty,
/// behind it; with more than one colon it is no specification.
pub open spec fn colon_pair(s: Seq<char>) -> Option<IdentitySpec> {
    let i = first_index_of(s, ':');
    if i == s.len() {
        Some(IdentitySpec { user: s, group: None })
    } else {
        let rest = s.subrange(i + 1, s.len() as int);
        if rest.contains(':') {
            None
        } else {
            Some(IdentitySpec { user: s.take(i), group: if rest.len() == 0 { None } else { Some(rest) } })
        }
    }
}

/// Splits a `user[:group]` token into a [`UserGroupPair`].
pub fn parse_colon_separated_pair(s: &str) -> (r: Result<UserGroupPair, String>)
    ensures
        match r {
            Ok(pair) => colon_pair(s@) == Some(pair@),
            Err(message) => colon_pair(s@) is None && message@ == "Invalid colon-separated pair: "@
                + s@,
        },
{
    let cs = chars_of(s);
    let n = cs.len();
    let i = find_char(&cs, ':', 0);
    assert(cs@.subrange(0, n as int) =~= s@);
    if i == n {
        return Ok(UserGroupPair { user: s.to_owned(), group: None });
    }
    let j = find_char(&cs, ':', i + 1);
    let ghost rest = s@.subrange(i + 1, n as int);
    if j < n {
        assert(rest[j - i - 1] == ':');
        return Err(String::from_str("Invalid colon-separated pair: ").concat(s));
    }
    assert(!rest.contains(':')) by {
        if rest.contains(':') {
            let k = choose|k: int| 0 <= k < rest.len() && rest[k] == ':';
            assert(cs@[i + 1 + k] == ':');
        }
    }
    let user = s.substring_char(0, i).to_owned();
    assert(s@.subrange(0, i as int) =~= s@.take(i as int));
    let group = if i + 1 == n {
        None
    } else {
        Some(s.substring_char(i + 1, n).to_owned())
    };
    Ok(UserGroupPair { user, group })
}

/// Reads `s` as a numeric id.
pub fn parse_id(s: &str) -> (id: Option<u32>)
    ensures
        id == id_of(s@),
{
    match parse_decimal(s, 0xffff_ffff) {
        Some(n) => Some(n as u32),
        None => None,
    }
}

/// Decides the user id from the specification and the entry found for it.
pub fn resolve_user_from(user: &str, found: Option<UserEntry>) -> (r: Result<u32, IdentityError>)
    ensures
        r == resolve_user(user@, found),
{
    match parse_id(user) {
        Some(uid) => match found {
            Some(_) => Ok(uid),
            None => Err(IdentityError::NoSuchUserId(uid)),
        },
        None => match found {
            Some(entry) => Ok(entry.uid),
            None => Err(IdentityError::NoSuchUserName),
        },
    }
}

/// Decides the group id from the specification, the group found for it and
/// the entry found under the resolved user id.
pub fn resolve_group_from(
    group: &Option<String>,
    uid: u32,
    found: Option<u32>,
    owner: Option<UserEntry>,
) -> (r: Result<u32, IdentityError>)
    ensures
        r == resolve_group(
            match *group {
                Some(g) => Some(g@),
                None => None,
            },
            uid,
            found,
            owner,
        ),
{
    match group {
        Some(g) => match parse_id(g.as_str()) {
            Some(gid) => match found {
                Some(_) => Ok(gid),
                None => Err(IdentityError::NoSuchGroupId(gid)),
            },
            None => match found {
                Some(gid) => Ok(gid),
                None => Err(IdentityError::NoSuchGroupName),
            },
        },
        None => match owner {
            Some(entry) => Ok(entry.primary_gid),
            None => Err(IdentityError::NoPrimaryGroup(uid)),
        },
    }
}

/// The identity that a caller's choice stands for, given what resolving it
/// returned: the resolved pair where a specification was given, "nobody"
/// where none was.
pub open spec fn identity_or_nobody(outcome: Option<Result<(u32, u32), IdentityError>>) -> Result<
    ResolvedIdentity,
    IdentityError,
> {
    match outcome {
        None => Ok(ResolvedIdentity { uid: NOBODY, gid: NOBODY }),
        Some(Ok(ids)) => Ok(ResolvedIdentity { uid: ids.0, gid: ids.1 }),
        Some(Err(e)) => Err(e),
    }
}

/// Settles the identity from the outcome of a resolution, if one was made.
pub fn identity_from(outcome: Option<Result<(u32, u32), IdentityError>>) -> (r: Result<
    ResolvedIdentity,
    IdentityError,
>)
    ensures
        r == identity_or_nobody(outcome),
{
    match outcome {
        None => Ok(ResolvedIdentity { uid: NOBODY, gid: NOBODY }),
        Some(Ok(ids)) => Ok(ResolvedIdentity { uid: ids.0, gid: ids.1 }),
        Some(Err(e)) => Err(e),
    }
}

/// Resolves the identity to run under against the system's database:
/// "nobody" where no specification is given, and no database is asked for
/// that.
pub fn resolve_identity(userspec: Option<&UserGroupPair>) -> (r: Result<
    ResolvedIdentity,
    IdentityError,
>)
    ensures
        userspec is None ==> r == Ok::<ResolvedIdentity, IdentityError>(
            ResolvedIdentity { uid: NOBODY, gid: NOBODY },
        ),
        userspec matches Some(pair) ==> {
            &&& exists|answers: Answers|
                r == identity_or_nobody(Some(resolve_with(pair@, answers)))
            &&& numeric_pair(pair@) matches Some(ids) ==> r == Ok::<
                ResolvedIdentity,
                IdentityError,
            >(ResolvedIdentity { uid: ids.0, gid: ids.1 })
        },
{
    match userspec {
        None => identity_from(None),
        Some(pair) => {
            let outcome = pair.resolve_ids();
            let ghost answers = choose|answers: Answers| outcome == resolve_with(pair@, answers);
            let r = identity_from(Some(outcome));
            assert(r == identity_or_nobody(Some(resolve_with(pair@, answers))));
            r
        },
    }
}

/// The id that a tool printed on a line of its own: the line without the
/// white space at its two ends, read as a number.
pub open spec fn id_on_line(output: Seq<char>) -> Option<u32> {
    id_of(trimmed(output))
}

/// Reads the id that a tool printed on a line of its own.
pub fn id_from_output(output: &str) -> (id: Option<u32>)
    ensures
        id == id_on_line(output@),
{
    let line = trim(output);
    parse_id(line.as_str())
}

/// The group id of an entry of the group database, `name:password:gid:...`:
/// its third field, read as a number.
pub open spec fn gid_of_entry(entry: Seq<char>) -> Option<u32> {
    let fields = split_at(entry, ':');
    if fields.len() >= 3 {
        id_of(fields[2])
    } else {
        None
    }
}

/// Reads the group id of an entry of the group database.
pub fn gid_from_entry(entry: &str) -> (gid: Option<u32>)
    ensures
        gid == gid_of_entry(entry@),
{
    let fields = split(entry, ':');
    if fields.len() >= 3 {
        assert(fields.deep_view()[2] == fields@[2]@);
        parse_id(fields[2].as_str())
    } else {
        None
    }
}

/// The id to change to: a number stands for itself, a name for the id
/// that was looked up for it.
pub open spec fn id_to_set(text: Seq<char>, looked_up: Option<u32>) -> Option<u32> {
    match id_of(text) {
        Some(id) => Some(id),
        None => looked_up,
    }
}

/// Decides the id to change to. `None` says that the name is unknown.
pub fn requested_id(text: &str, looked_up: Option<u32>) -> (id: Option<u32>)
    ensures
        id == id_to_set(text@, looked_up),
{
    match parse_id(text) {
        Some(id) => Some(id),
        None => looked_up,
    }
}

/// Asks the system's user database for the user with this id, through
/// `users::get_user_by_uid`, and keeps the id and the primary group of the
/// entry. The answer is the system's: nothing is claimed of it.
#[verifier::external_body]
fn lookup_user_by_uid(uid: u32) -> (found: Option<UserEntry>) {
    match users::get_user_by_uid(uid) {
        Some(user) => Some(UserEntry { uid: user.uid(), primary_gid: user.primary_group_id() }),
        None => None,
    }
}

/// Asks the system's user database for the user with this name, through
/// `users::get_user_by_name`, and keeps the id and the primary group of the
/// entry. A name that holds a NUL character is never handed to the system:
/// the crate answers `None` for it.
#[verifier::external_body]
fn lookup_user_by_name(name: &str) -> (found: Option<UserEntry>)
    ensures
        name@.contains('\0') ==> found is None,
{
    match users::get_user_by_name(name) {
        Some(user) => Some(UserEntry { uid: user.uid(), primary_gid: user.primary_group_id() }),
        None => None,
    }
}

/// Asks the system's group database for the group with this id, through
/// `users::get_group_by_gid`, and keeps the id of the entry. The answer is
/// the system's: nothing is claimed of it.
#[verifier::external_body]
fn lookup_group_by_gid(gid: u32) -> (found: Option<u32>) {
    match users::get_group_by_gid(gid) {
        Some(group) => Some(group.gid()),
        None => None,
    }
}

/// Asks the system's group database for the group with this name, through
/// `users::get_group_by_name`, and keeps the id of the entry. A name that
/// holds a NUL character is never handed to the system: the crate answers
/// `None` for it.
#[verifier::external_body]
fn lookup_group_by_name(name: &str) -> (found: Option<u32>)
    ensures
        name@.contains('\0') ==> found is None,
{
    match users::get_group_by_name(name) {
        Some(group) => Some(group.gid()),
        None => None,
    }
}

impl UserGroupPair {
    pub fn new(user: String, group: Option<String>) -> (pair: Self)
        ensures
            pair.user == user,
            pair.group == group,
    {
        Self { user, group }
    }

    /// Both ids where both are given by number: the path that asks no
    /// database.
    pub fn numeric_ids(&self) -> (ids: Option<(u32, u32)>)
        ensures
            ids == numeric_pair(self@),
    {
        match parse_id(self.user.as_str()) {
            Some(uid) => match &self.group {
                Some(g) => match parse_id(g.as_str()) {
                    Some(gid) => Some((uid, gid)),
                    None => None,
                },
                None => None,
            },
            None => None,
        }
    }

    /// Resolves the pair against the system's identity database.
    ///
    /// Two numbers are returned as they stand and the database is not
    /// asked. Otherwise the outcome is `resolve_with` of what the system
    /// answered: the user first, and the group only once the user is known.
    pub fn resolve_ids(&self) -> (r: Result<(u32, u32), IdentityError>)
        ensures
            numeric_pair(self@) matches Some(ids) ==> r == Ok::<(u32, u32), IdentityError>(ids),
            exists|answers: Answers| r == resolve_with(self@, answers),
            self.user@.contains('\0') && id_of(self.user@) is None ==> r == Err::<
                (u32, u32),
                IdentityError,
            >(IdentityError::NoSuchUserName),
    {
        let nothing = Answers { user: None, group: None, owner: None };
        match self.numeric_ids() {
            Some(ids) => {
                assert(Ok::<(u32, u32), IdentityError>(ids) == resolve_with(self@, nothing));
                return Ok(ids);
            },
            None => {},
        }
        let user = match parse_id(self.user.as_str()) {
            Some(uid) => lookup_user_by_uid(uid),
            None => lookup_user_by_name(self.user.as_str()),
        };
        let uid = match resolve_user_from(self.user.as_str(), user) {
            Ok(uid) => uid,
            Err(e) => {
                let asked = Answers { user, group: None, owner: None };
                assert(Err::<(u32, u32), IdentityError>(e) == resolve_with(self@, asked));
                return Err(e);
            },
        };
        let (group, owner) = match &self.group {
            Some(g) => match parse_id(g.as_str()) {
                Some(gid) => (lookup_group_by_gid(gid), None),
                None => (lookup_group_by_name(g.as_str()), None),
            },
            None => (None, lookup_user_by_uid(uid)),
        };
        let asked = Answers { user, group, owner };
        let r = self.resolve_from(asked);
        assert(r == resolve_with(self@, asked));
        r
    }

    /// Resolves the pair given what a database answered.
    pub fn resolve_from(&self, answers: Answers) -> (r: Result<(u32, u32), IdentityError>)
        ensures
            r == resolve_with(self@, answers),
    {
        match self.numeric_ids() {
            Some(ids) => Ok(ids),
            None => match resolve_user_from(self.user.as_str(), answers.user) {
                Err(e) => Err(e),
                Ok(uid) => match resolve_group_from(
                    &self.group,
                    uid,
                    answers.group,
                    answers.owner,
                ) {
                    Err(e) => Err(e),
                    Ok(gid) => Ok((uid, gid)),
                },
            },
        }
    }
}

} // verus!
