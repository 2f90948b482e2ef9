//! What holds of every identity resolution.

use vstd::prelude::*;
use crate::identity::{
    Answers,
    IdentityError,
    IdentitySpec,
    id_of,
    numeric_pair,
    resolve_with,
};
use crate::identity_db::{
    IdentityDb,
    group_is_named,
    is_first_group,
    is_first_user,
    user_has_uid,
    user_is_named,
};

verus! {

/// A user and a group that are both given by number resolve to those two
/// numbers, whatever any database would have answered: none is asked.
pub proof fn law_numeric_pair_is_verbatim(user: Seq<char>, group: Seq<char>, answers: Answers)
    requires
        id_of(user) is Some,
        id_of(group) is Some,
    ensures
        resolve_with(IdentitySpec { user, group: Some(group) }, answers) == Ok::<
            (u32, u32),
            IdentityError,
        >((id_of(user)->0, id_of(group)->0)),
        numeric_pair(IdentitySpec { user, group: Some(group) }) is Some,
{
}

/// A user name that the database holds resolves to the id of the first
/// entry with that name: with no group named the resolution succeeds, and
/// with one named it can only fail on the group.
pub proof fn law_known_user_name_resolves(
    db: IdentityDb,
    name: Seq<char>,
    group: Option<Seq<char>>,
    i: int,
)
    requires
        id_of(name) is None,
        is_first_user(db.users@, user_is_named(name), i),
    ensures
        match resolve_with(
            IdentitySpec { user: name, group },
            db.answers(IdentitySpec { user: name, group }),
        ) {
            Ok(ids) => ids.0 == db.users@[i].uid,
            Err(e) => group is Some && (e is NoSuchGroupId || e is NoSuchGroupName),
        },
{
    let by_name = user_is_named(name);
    let k = choose|k: int| is_first_user(db.users@, by_name, k);
    assert(k == i) by {
        if k < i {
            assert(!by_name(db.users@[k]));
        }
        if i < k {
            assert(!by_name(db.users@[i]));
        }
    }
    if group is None {
        lemma_some_user_has_uid(db, db.users@[i].uid, i);
    }
}

/// A user name that the database does not hold fails to resolve, as an
/// unknown user name.
pub proof fn law_unknown_user_name_fails(db: IdentityDb, name: Seq<char>, group: Option<Seq<char>>)
    requires
        id_of(name) is None,
        forall|i: int| 0 <= i < db.users@.len() ==> (#[trigger] db.users@[i]).name@ != name,
    ensures
        resolve_with(
            IdentitySpec { user: name, group },
            db.answers(IdentitySpec { user: name, group }),
        ) == Err::<(u32, u32), IdentityError>(IdentityError::NoSuchUserName),
{
}

/// Once the user resolves, a group name that the database holds resolves to
/// the id of the first group with that name.
pub proof fn law_known_group_name_resolves(
    db: IdentityDb,
    user: Seq<char>,
    group: Seq<char>,
    i: int,
)
    requires
        id_of(group) is None,
        is_first_group(db.groups@, group_is_named(group), i),
    ensures
        match resolve_with(
            IdentitySpec { user, group: Some(group) },
            db.answers(IdentitySpec { user, group: Some(group) }),
        ) {
            Ok(ids) => ids.1 == db.groups@[i].gid,
            Err(e) => e is NoSuchUserId || e is NoSuchUserName,
        },
{
    let by_name = group_is_named(group);
    let k = choose|k: int| is_first_group(db.groups@, by_name, k);
    assert(k == i) by {
        if k < i {
            assert(!by_name(db.groups@[k]));
        }
        if i < k {
            assert(!by_name(db.groups@[i]));
        }
    }
}

/// A group name that the database does not hold never resolves: the
/// resolution fails on the user, or else as an unknown group name.
pub proof fn law_unknown_group_name_fails(db: IdentityDb, user: Seq<char>, group: Seq<char>)
    requires
        id_of(group) is None,
        forall|i: int| 0 <= i < db.groups@.len() ==> (#[trigger] db.groups@[i]).name@ != group,
    ensures
        match resolve_with(
            IdentitySpec { user, group: Some(group) },
            db.answers(IdentitySpec { user, group: Some(group) }),
        ) {
            Ok(_) => false,
            Err(e) => e is NoSuchUserId || e is NoSuchUserName || e is NoSuchGroupName,
        },
{
}

/// Where no group is named, the group of a successful resolution is the
/// primary group of the entry found under the resolved user id.
pub proof fn law_omitted_group_is_primary(user: Seq<char>, answers: Answers)
    ensures
        resolve_with(IdentitySpec { user, group: None }, answers) matches Ok(ids) ==> {
            &&& answers.owner matches Some(entry)
            &&& ids.1 == entry.primary_gid
        },
{
}

/// In a seeded database, where no group is named, the group of a
/// successful resolution is the primary group that the database holds for
/// the resolved user id.
pub proof fn law_omitted_group_is_primary_in_db(db: IdentityDb, user: Seq<char>)
    ensures
        resolve_with(
            IdentitySpec { user, group: None },
            db.answers(IdentitySpec { user, group: None }),
        ) matches Ok(ids) ==> {
            &&& db.user_by_uid(ids.0) matches Some(entry)
            &&& ids.1 == entry.primary_gid
        },
{
}

/// Every resolved identity is backed: either both ids were given by number
/// and are taken unverified, or every part that was looked up was found in
/// the database.
pub proof fn law_resolved_identity_is_backed(spec: IdentitySpec, answers: Answers)
    ensures
        resolve_with(spec, answers) is Ok ==> numeric_pair(spec) is Some || {
            &&& answers.user is Some
            &&& spec.group is Some ==> answers.group is Some
            &&& spec.group is None ==> answers.owner is Some
        },
        resolve_with(spec, answers) matches Ok(ids) ==> (id_of(spec.user) matches Some(uid)
            ==> ids.0 == uid),
{
}

/// A database with a user at `i` answers a lookup of that user's id.
proof fn lemma_some_user_has_uid(db: IdentityDb, uid: u32, i: int)
    requires
        0 <= i < db.users@.len(),
        db.users@[i].uid == uid,
    ensures
        db.user_by_uid(uid) is Some,
    decreases i,
{
    let by_uid = user_has_uid(uid);
    if forall|j: int| 0 <= j < i ==> !by_uid(#[trigger] db.users@[j]) {
        assert(is_first_user(db.users@, by_uid, i));
    } else {
        let j = choose|j: int| 0 <= j < i && by_uid(#[trigger] db.users@[j]);
        lemma_some_user_has_uid(db, uid, j);
    }
}

} // verus!
