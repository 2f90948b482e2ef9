use rizzybox::identity::{
    gid_from_entry, id_from_output, identity_from, requested_id, resolve_group_from,
    resolve_identity, resolve_user_from, Answers, IdentityError, ResolvedIdentity, UserEntry,
    NOBODY,
};
use rizzybox::identity_db::IdentityDb;
use rizzybox::UserGroupPair;

fn seeded() -> IdentityDb {
    let mut db = IdentityDb::new();
    db.add_user("root", 0, 0);
    db.add_user("alice", 1000, 100);
    db.add_user("bob", 1001, 1001);
    db.add_user("alias", 1000, 200);
    db.add_user("ghost", 4242, 7);
    db.add_group("root", 0);
    db.add_group("users", 100);
    db.add_group("bob", 1001);
    db.add_group("staff", 50);
    db.add_group("staff", 51);
    db
}

fn pair(user: &str, group: Option<&str>) -> UserGroupPair {
    UserGroupPair::new(user.to_string(), group.map(|g| g.to_string()))
}

#[test]
fn numeric_pairs_are_returned_verbatim_from_any_database() {
    let empty = IdentityDb::new();
    let db = seeded();
    for (user, group, uid, gid) in [
        ("1000", "1000", 1000, 1000),
        ("0", "0", 0, 0),
        ("77777", "88888", 77777, 88888),
        ("+12", "0012", 12, 12),
        ("4294967295", "4294967295", u32::MAX, u32::MAX),
    ] {
        let p = pair(user, Some(group));
        assert_eq!(p.numeric_ids(), Some((uid, gid)));
        assert_eq!(empty.resolve(&p), Ok((uid, gid)));
        assert_eq!(db.resolve(&p), Ok((uid, gid)));
        assert_eq!(p.resolve_ids(), Ok((uid, gid)));
    }
}

#[test]
fn names_in_the_database_resolve_to_their_ids() {
    let db = seeded();
    assert_eq!(db.resolve(&pair("alice", None)), Ok((1000, 100)));
    assert_eq!(db.resolve(&pair("bob", None)), Ok((1001, 1001)));
    assert_eq!(db.resolve(&pair("alice", Some("staff"))), Ok((1000, 50)));
    assert_eq!(db.resolve(&pair("alice", Some("bob"))), Ok((1000, 1001)));
    assert_eq!(db.resolve(&pair("root", Some("root"))), Ok((0, 0)));
}

#[test]
fn names_missing_from_the_database_are_not_found() {
    let db = seeded();
    assert_eq!(db.resolve(&pair("nonexistentuser", None)), Err(IdentityError::NoSuchUserName));
    assert_eq!(
        db.resolve(&pair("nonexistentuser", Some("staff"))),
        Err(IdentityError::NoSuchUserName)
    );
    assert_eq!(db.resolve(&pair("alice", Some("nogroup"))), Err(IdentityError::NoSuchGroupName));
    assert_eq!(db.resolve(&pair("", None)), Err(IdentityError::NoSuchUserName));
    assert_eq!(IdentityDb::new().resolve(&pair("root", None)), Err(IdentityError::NoSuchUserName));
}

#[test]
fn numbers_outside_the_fast_path_are_checked() {
    let db = seeded();
    assert_eq!(db.resolve(&pair("1000", None)), Ok((1000, 100)));
    assert_eq!(db.resolve(&pair("4242", None)), Ok((4242, 7)));
    assert_eq!(db.resolve(&pair("555", None)), Err(IdentityError::NoSuchUserId(555)));
    assert_eq!(db.resolve(&pair("555", Some("staff"))), Err(IdentityError::NoSuchUserId(555)));
    assert_eq!(db.resolve(&pair("1000", Some("staff"))), Ok((1000, 50)));
    assert_eq!(db.resolve(&pair("alice", Some("100"))), Ok((1000, 100)));
    assert_eq!(db.resolve(&pair("alice", Some("999"))), Err(IdentityError::NoSuchGroupId(999)));
}

#[test]
fn omitted_group_is_the_primary_group_of_the_resolved_id() {
    let db = seeded();
    // "alias" shares uid 1000 with "alice": the primary group is that of the
    // first entry with the resolved id.
    assert_eq!(db.resolve(&pair("alias", None)), Ok((1000, 100)));
    assert_eq!(db.find_user_by_uid(1000), Some(UserEntry { uid: 1000, primary_gid: 100 }));
    assert_eq!(db.find_user_by_name("alias"), Some(UserEntry { uid: 1000, primary_gid: 200 }));
    let p = pair("carol", None);
    let answers = Answers {
        user: Some(UserEntry { uid: 7, primary_gid: 8 }),
        group: None,
        owner: Some(UserEntry { uid: 7, primary_gid: 9 }),
    };
    assert_eq!(p.resolve_from(answers), Ok((7, 9)));
    let unanswered = Answers { user: Some(UserEntry { uid: 7, primary_gid: 8 }), group: None, owner: None };
    assert_eq!(p.resolve_from(unanswered), Err(IdentityError::NoPrimaryGroup(7)));
}

#[test]
fn lookups_find_the_first_entry() {
    let db = seeded();
    assert_eq!(db.find_group_by_name("staff"), Some(50));
    assert_eq!(db.find_group_by_gid(51), Some(51));
    assert_eq!(db.find_group_by_gid(52), None);
    assert_eq!(db.find_group_by_name("Staff"), None);
    assert_eq!(db.find_user_by_uid(9), None);
    assert_eq!(db.find_user_by_name("alic"), None);
}

#[test]
fn decisions_follow_the_answers() {
    let entry = UserEntry { uid: 5, primary_gid: 6 };
    assert_eq!(resolve_user_from("12", Some(entry)), Ok(12));
    assert_eq!(resolve_user_from("12", None), Err(IdentityError::NoSuchUserId(12)));
    assert_eq!(resolve_user_from("dave", Some(entry)), Ok(5));
    assert_eq!(resolve_user_from("dave", None), Err(IdentityError::NoSuchUserName));
    assert_eq!(resolve_group_from(&Some("30".to_string()), 5, Some(30), None), Ok(30));
    assert_eq!(
        resolve_group_from(&Some("30".to_string()), 5, None, None),
        Err(IdentityError::NoSuchGroupId(30))
    );
    assert_eq!(resolve_group_from(&Some("wheel".to_string()), 5, Some(10), None), Ok(10));
    assert_eq!(
        resolve_group_from(&Some("wheel".to_string()), 5, None, None),
        Err(IdentityError::NoSuchGroupName)
    );
    assert_eq!(resolve_group_from(&None, 5, None, Some(entry)), Ok(6));
    assert_eq!(resolve_group_from(&None, 5, None, None), Err(IdentityError::NoPrimaryGroup(5)));
}

#[test]
fn no_specification_means_nobody() {
    assert_eq!(NOBODY, 65534);
    assert_eq!(resolve_identity(None), Ok(ResolvedIdentity { uid: 65534, gid: 65534 }));
    assert_eq!(identity_from(None), Ok(ResolvedIdentity { uid: 65534, gid: 65534 }));
    assert_eq!(identity_from(Some(Ok((3, 4)))), Ok(ResolvedIdentity { uid: 3, gid: 4 }));
    assert_eq!(
        identity_from(Some(Err(IdentityError::NoSuchUserName))),
        Err(IdentityError::NoSuchUserName)
    );
    let p = pair("1000", Some("1000"));
    assert_eq!(resolve_identity(Some(&p)), Ok(ResolvedIdentity { uid: 1000, gid: 1000 }));
    let p = pair("nonexistentuser", None);
    assert_eq!(resolve_identity(Some(&p)), Err(IdentityError::NoSuchUserName));
}

#[test]
fn a_name_with_a_nul_is_never_found_by_the_system() {
    let p = pair("ro\0ot", None);
    assert_eq!(p.resolve_ids(), Err(IdentityError::NoSuchUserName));
}

#[test]
fn the_system_database_answers_for_root() {
    // The one lookup that every Linux system answers: user 0 is there.
    let p = pair("0", None);
    match p.resolve_ids() {
        Ok((uid, _)) => assert_eq!(uid, 0),
        Err(e) => assert_eq!(e, IdentityError::NoSuchUserId(0)),
    }
    let p = pair("root", Some("nonexistentgroup"));
    match p.resolve_ids() {
        Err(e) => assert!(e == IdentityError::NoSuchGroupName || e == IdentityError::NoSuchUserName),
        Ok(ids) => panic!("resolved to {:?}", ids),
    }
}

#[test]
fn ids_are_read_from_tool_output() {
    assert_eq!(id_from_output("1000\n"), Some(1000));
    assert_eq!(id_from_output("  42 \t"), Some(42));
    assert_eq!(id_from_output("id: no such user"), None);
    assert_eq!(id_from_output(""), None);
    assert_eq!(gid_from_entry("staff:x:50:alice,bob"), Some(50));
    assert_eq!(gid_from_entry("staff:x:50"), Some(50));
    assert_eq!(gid_from_entry("staff:x"), None);
    assert_eq!(gid_from_entry("staff:x: 50:"), None);
    assert_eq!(gid_from_entry("staff:x:50\n"), None);
    assert_eq!(requested_id("12", None), Some(12));
    assert_eq!(requested_id("12", Some(7)), Some(12));
    assert_eq!(requested_id("wheel", Some(7)), Some(7));
    assert_eq!(requested_id("wheel", None), None);
}
