//! A seeded identity database: users and groups held in memory, looked up
//! as the system's database is, first entry first.

use vstd::prelude::*;
use crate::identity::{
    Answers,
    IdentityError,
    IdentitySpec,
    UserEntry,
    UserGroupPair,
    id_of,
    parse_id,
    resolve_user,
    resolve_with,
};
use crate::text::same_text;

verus! {

/// One user of a seeded database.
#[derive(Debug, Clone)]
pub struct UserRecord {
    pub name: String,
    pub uid: u32,
    pub primary_gid: u32,
}

/// One group of a seeded database.
#[derive(Debug, Clone)]
pub struct GroupRecord {
    pub name: String,
    pub gid: u32,
}

/// Users and groups in the order in which they are searched.
#[derive(Debug, Clone)]
pub struct IdentityDb {
    pub users: Vec<UserRecord>,
    pub groups: Vec<GroupRecord>,
}

/// `i` is the first user of `users` that `wanted` accepts.
pub open spec fn is_first_user(
    users: Seq<UserRecord>,
    wanted: spec_fn(UserRecord) -> bool,
    i: int,
) -> bool {
    &&& 0 <= i < users.len()
    &&& wanted(users[i])
    &&& forall|j: int| 0 <= j < i ==> !wanted(#[trigger] users[j])
}

/// The entry of the first user that `wanted` accepts.
pub open spec fn find_user(users: Seq<UserRecord>, wanted: spec_fn(UserRecord) -> bool) -> Option<
    UserEntry,
> {
    if exists|i: int| is_first_user(users, wanted, i) {
        let i = choose|i: int| is_first_user(users, wanted, i);
        Some(UserEntry { uid: users[i].uid, primary_gid: users[i].primary_gid })
    } else {
        None
    }
}

/// `i` is the first group of `groups` that `wanted` accepts.
pub open spec fn is_first_group(
    groups: Seq<GroupRecord>,
    wanted: spec_fn(GroupRecord) -> bool,
    i: int,
) -> bool {
    &&& 0 <= i < groups.len()
    &&& wanted(groups[i])
    &&& forall|j: int| 0 <= j < i ==> !wanted(#[trigger] groups[j])
}

/// The id of the first group that `wanted` accepts.
pub open spec fn find_group(
    groups: Seq<GroupRecord>,
    wanted: spec_fn(GroupRecord) -> bool,
) -> Option<u32> {
    if exists|i: int| is_first_group(groups, wanted, i) {
        let i = choose|i: int| is_first_group(groups, wanted, i);
        Some(groups[i].gid)
    } else {
        None
    }
}

/// Accepts the users with this id.
pub open spec fn user_has_uid(uid: u32) -> spec_fn(UserRecord) -> bool {
    |u: UserRecord| u.uid == uid
}

/// Accepts the users with this name.
pub open spec fn user_is_named(name: Seq<char>) -> spec_fn(UserRecord) -> bool {
    |u: UserRecord| u.name@ == name
}

/// Accepts the groups with this id.
pub open spec fn group_has_gid(gid: u32) -> spec_fn(GroupRecord) -> bool {
    |g: GroupRecord| g.gid == gid
}

/// Accepts the groups with this name.
pub open spec fn group_is_named(name: Seq<char>) -> spec_fn(GroupRecord) -> bool {
    |g: GroupRecord| g.name@ == name
}

impl IdentityDb {
    /// The first user with this id.
    pub open spec fn user_by_uid(&self, uid: u32) -> Option<UserEntry> {
        find_user(self.users@, user_has_uid(uid))
    }

    /// The first user with this name.
    pub open spec fn user_by_name(&self, name: Seq<char>) -> Option<UserEntry> {
        find_user(self.users@, user_is_named(name))
    }

    /// The first group with this id.
    pub open spec fn group_by_gid(&self, gid: u32) -> Option<u32> {
        find_group(self.groups@, group_has_gid(gid))
    }

    /// The first group with this name.
    pub open spec fn group_by_name(&self, name: Seq<char>) -> Option<u32> {
        find_group(self.groups@, group_is_named(name))
    }

    /// What this database answers to the questions that resolving `spec`
    /// asks: for the user by number or by name, for the group likewise
    /// where one is named, and else for the entry under the resolved user
    /// id.
    pub open spec fn answers(&self, spec: IdentitySpec) -> Answers {
        let user = match id_of(spec.user) {
            Some(uid) => self.user_by_uid(uid),
            None => self.user_by_name(spec.user),
        };
        Answers {
            user,
            group: match spec.group {
                Some(g) => match id_of(g) {
                    Some(gid) => self.group_by_gid(gid),
                    None => self.group_by_name(g),
                },
                None => None,
            },
            owner: match (spec.group, resolve_user(spec.user, user)) {
                (None, Ok(uid)) => self.user_by_uid(uid),
                _ => None,
            },
        }
    }

    /// An empty database.
    pub fn new() -> (db: Self)
        ensures
            db.users@.len() == 0,
            db.groups@.len() == 0,
    {
        IdentityDb { users: Vec::new(), groups: Vec::new() }
    }

    /// Adds a user behind those already there.
    pub fn add_user(&mut self, name: &str, uid: u32, primary_gid: u32)
        ensures
            final(self).groups == old(self).groups,
            final(self).users@.len() == old(self).users@.len() + 1,
            final(self).users@.drop_last() == old(self).users@,
            final(self).users@.last().name@ == name@,
            final(self).users@.last().uid == uid,
            final(self).users@.last().primary_gid == primary_gid,
    {
        self.users.push(UserRecord { name: name.to_owned(), uid, primary_gid });
        assert(self.users@.drop_last() =~= old(self).users@);
    }

    /// Adds a group behind those already there.
    pub fn add_group(&mut self, name: &str, gid: u32)
        ensures
            final(self).users == old(self).users,
            final(self).groups@.len() == old(self).groups@.len() + 1,
            final(self).groups@.drop_last() == old(self).groups@,
            final(self).groups@.last().name@ == name@,
            final(self).groups@.last().gid == gid,
    {
        self.groups.push(GroupRecord { name: name.to_owned(), gid });
        assert(self.groups@.drop_last() =~= old(self).groups@);
    }

    /// Looks a user up by id.
    pub fn find_user_by_uid(&self, uid: u32) -> (found: Option<UserEntry>)
        ensures
            found == self.user_by_uid(uid),
    {
        let ghost wanted = user_has_uid(uid);
        let mut i: usize = 0;
        while i < self.users.len()
            invariant
                i <= self.users.len(),
                wanted == user_has_uid(uid),
                forall|j: int| 0 <= j < i ==> !wanted(#[trigger] self.users@[j]),
            decreases self.users.len() - i,
        {
            if self.users[i].uid == uid {
                assert(is_first_user(self.users@, wanted, i as int));
                return Some(
                    UserEntry { uid: self.users[i].uid, primary_gid: self.users[i].primary_gid },
                );
            }
            i += 1;
        }
        None
    }

    /// Looks a user up by name.
    pub fn find_user_by_name(&self, name: &str) -> (found: Option<UserEntry>)
        ensures
            found == self.user_by_name(name@),
    {
        let ghost wanted = user_is_named(name@);
        let mut i: usize = 0;
        while i < self.users.len()
            invariant
                i <= self.users.len(),
                wanted == user_is_named(name@),
                forall|j: int| 0 <= j < i ==> !wanted(#[trigger] self.users@[j]),
            decreases self.users.len() - i,
        {
            if same_text(self.users[i].name.as_str(), name) {
                assert(is_first_user(self.users@, wanted, i as int));
                return Some(
                    UserEntry { uid: self.users[i].uid, primary_gid: self.users[i].primary_gid },
                );
            }
            i += 1;
        }
        None
    }

    /// Looks a group up by id.
    pub fn find_group_by_gid(&self, gid: u32) -> (found: Option<u32>)
        ensures
            found == self.group_by_gid(gid),
    {
        let ghost wanted = group_has_gid(gid);
        let mut i: usize = 0;
        while i < self.groups.len()
            invariant
                i <= self.groups.len(),
                wanted == group_has_gid(gid),
                forall|j: int| 0 <= j < i ==> !wanted(#[trigger] self.groups@[j]),
            decreases self.groups.len() - i,
        {
            if self.groups[i].gid == gid {
                assert(is_first_group(self.groups@, wanted, i as int));
                return Some(self.groups[i].gid);
            }
            i += 1;
        }
        None
    }

    /// Looks a group up by name.
    pub fn find_group_by_name(&self, name: &str) -> (found: Option<u32>)
        ensures
            found == self.group_by_name(name@),
    {
        let ghost wanted = group_is_named(name@);
        let mut i: usize = 0;
        while i < self.groups.len()
            invariant
                i <= self.groups.len(),
                wanted == group_is_named(name@),
                forall|j: int| 0 <= j < i ==> !wanted(#[trigger] self.groups@[j]),
            decreases self.groups.len() - i,
        {
            if same_text(self.groups[i].name.as_str(), name) {
                assert(is_first_group(self.groups@, wanted, i as int));
                return Some(self.groups[i].gid);
            }
            i += 1;
        }
        None
    }

    /// Resolves `pair` against this database.
    pub fn resolve(&self, pair: &UserGroupPair) -> (r: Result<(u32, u32), IdentityError>)
        ensures
            r == resolve_with(pair@, self.answers(pair@)),
    {
        let user = match parse_id(pair.user.as_str()) {
            Some(uid) => self.find_user_by_uid(uid),
            None => self.find_user_by_name(pair.user.as_str()),
        };
        let group = match &pair.group {
            Some(g) => match parse_id(g.as_str()) {
                Some(gid) => self.find_group_by_gid(gid),
                None => self.find_group_by_name(g.as_str()),
            },
            None => None,
        };
        let owner = match &pair.group {
            Some(_) => None,
            None => match crate::identity::resolve_user_from(pair.user.as_str(), user) {
                Ok(uid) => self.find_user_by_uid(uid),
                Err(_) => None,
            },
        };
        pair.resolve_from(Answers { user, group, owner })
    }
}

} // verus!
