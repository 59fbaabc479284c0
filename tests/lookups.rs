use std::cell::Cell;
use std::rc::Rc;

use users::{
    get_current_uid, get_group_by_gid, get_group_by_name, get_user_by_name, get_user_by_uid,
    Group, IdentitySource, OSUsers, User, Users,
};

/// An in-memory database that counts how often it is asked.
#[derive(Clone)]
struct FakeDb {
    users: Vec<User>,
    groups: Vec<Group>,
    me: i32,
    calls: Rc<Cell<u32>>,
}

impl FakeDb {
    fn new() -> FakeDb {
        FakeDb {
            users: vec![
                User { uid: 1000, name: "alice".to_string(), primary_group: 100 },
                User { uid: 1001, name: "bob".to_string(), primary_group: 100 },
                User { uid: 0, name: "root".to_string(), primary_group: 0 },
            ],
            groups: vec![
                Group {
                    gid: 100,
                    name: "staff".to_string(),
                    members: vec!["carol".to_string(), "bob".to_string(), "alice".to_string()],
                },
                Group { gid: 200, name: "empty".to_string(), members: vec![] },
            ],
            me: 1000,
            calls: Rc::new(Cell::new(0)),
        }
    }

    fn tick(&self) {
        self.calls.set(self.calls.get() + 1);
    }
}

impl IdentitySource for FakeDb {
    fn user_by_uid(&mut self, uid: i32) -> Option<User> {
        self.tick();
        self.users.iter().find(|u| u.uid == uid).cloned()
    }

    fn user_by_name(&mut self, name: &str) -> Option<User> {
        self.tick();
        self.users.iter().find(|u| u.name == name).cloned()
    }

    fn group_by_gid(&mut self, gid: u32) -> Option<Group> {
        self.tick();
        self.groups.iter().find(|g| g.gid == gid).cloned()
    }

    fn group_by_name(&mut self, name: &str) -> Option<Group> {
        self.tick();
        self.groups.iter().find(|g| g.name == name).cloned()
    }

    fn current_uid(&mut self) -> i32 {
        self.tick();
        self.me
    }
}

fn alice() -> User {
    User { uid: 1000, name: "alice".to_string(), primary_group: 100 }
}

#[test]
fn uid() {
    OSUsers::empty_cache(FakeDb::new()).get_current_uid();
}

#[test]
fn username() {
    let mut users = OSUsers::empty_cache(FakeDb::new());
    let uid = users.get_current_uid();
    users.get_user_by_uid(uid);
}

#[test]
fn uid_for_username() {
    let mut users = OSUsers::empty_cache(FakeDb::new());
    let uid = users.get_current_uid();
    let user = users.get_user_by_uid(uid).unwrap();
    assert_eq!(user.uid, uid);
}

#[test]
fn username_for_uid_for_username() {
    let mut users = OSUsers::empty_cache(FakeDb::new());
    let uid = users.get_current_uid();
    let user = users.get_user_by_uid(uid).unwrap();
    let user2 = users.get_user_by_uid(user.uid).unwrap();
    assert_eq!(user2.uid, uid);
}

#[test]
fn repeated_uid_lookup_asks_once() {
    let db = FakeDb::new();
    let calls = db.calls.clone();
    let mut cache = OSUsers::empty_cache(db);
    let first = cache.get_user_by_uid(1001);
    assert_eq!(calls.get(), 1);
    let second = cache.get_user_by_uid(1001);
    assert_eq!(calls.get(), 1);
    assert_eq!(first, second);
    assert_eq!(first.unwrap().name, "bob");
}

#[test]
fn repeated_gid_lookup_asks_once() {
    let db = FakeDb::new();
    let calls = db.calls.clone();
    let mut cache = OSUsers::empty_cache(db);
    let first = cache.get_group_by_gid(100);
    let second = cache.get_group_by_gid(100);
    assert_eq!(calls.get(), 1);
    assert_eq!(first, second);
}

#[test]
fn alice_by_uid_then_by_name() {
    let db = FakeDb::new();
    let calls = db.calls.clone();
    let mut cache = OSUsers::empty_cache(db);
    let by_id = cache.get_user_by_uid(1000);
    assert_eq!(by_id, Some(alice()));
    assert_eq!(calls.get(), 1);
    let by_name = cache.get_user_by_name("alice".to_string());
    assert_eq!(by_name, Some(alice()));
    assert_eq!(calls.get(), 1);
}

#[test]
fn user_by_name_then_by_uid_from_cache() {
    let db = FakeDb::new();
    let calls = db.calls.clone();
    let mut cache = OSUsers::empty_cache(db);
    let by_name = cache.get_user_by_name("root".to_string()).unwrap();
    assert_eq!(by_name.uid, 0);
    let by_id = cache.get_user_by_uid(0).unwrap();
    assert_eq!(by_id, by_name);
    let again = cache.get_user_by_name("root".to_string()).unwrap();
    assert_eq!(again, by_name);
    assert_eq!(calls.get(), 1);
}

#[test]
fn group_by_gid_then_by_name_from_cache() {
    let db = FakeDb::new();
    let calls = db.calls.clone();
    let mut cache = OSUsers::empty_cache(db);
    let by_id = cache.get_group_by_gid(100).unwrap();
    let by_name = cache.get_group_by_name("staff".to_string()).unwrap();
    assert_eq!(by_id, by_name);
    assert_eq!(calls.get(), 1);
}

#[test]
fn group_by_name_then_by_gid_from_cache() {
    let db = FakeDb::new();
    let calls = db.calls.clone();
    let mut cache = OSUsers::empty_cache(db);
    let by_name = cache.get_group_by_name("staff".to_string()).unwrap();
    let by_id = cache.get_group_by_gid(100).unwrap();
    assert_eq!(by_id, by_name);
    assert_eq!(calls.get(), 1);
}

#[test]
fn missing_uid_is_cached() {
    let db = FakeDb::new();
    let calls = db.calls.clone();
    let mut cache = OSUsers::empty_cache(db);
    assert_eq!(cache.get_user_by_uid(9999), None);
    assert_eq!(calls.get(), 1);
    assert_eq!(cache.get_user_by_uid(9999), None);
    assert_eq!(calls.get(), 1);
}

#[test]
fn missing_names_are_cached() {
    let db = FakeDb::new();
    let calls = db.calls.clone();
    let mut cache = OSUsers::empty_cache(db);
    assert_eq!(cache.get_user_by_name("mallory".to_string()), None);
    assert_eq!(cache.get_user_by_name("mallory".to_string()), None);
    assert_eq!(cache.get_group_by_name("wheel".to_string()), None);
    assert_eq!(cache.get_group_by_name("wheel".to_string()), None);
    assert_eq!(cache.get_group_by_gid(7), None);
    assert_eq!(cache.get_group_by_gid(7), None);
    assert_eq!(calls.get(), 3);
}

#[test]
fn missing_uid_does_not_hide_a_name() {
    let db = FakeDb::new();
    let calls = db.calls.clone();
    let mut cache = OSUsers::empty_cache(db);
    assert_eq!(cache.get_user_by_uid(9999), None);
    let bob = cache.get_user_by_name("bob".to_string()).unwrap();
    assert_eq!(bob.uid, 1001);
    assert_eq!(calls.get(), 2);
}

#[test]
fn missing_name_does_not_hide_a_uid() {
    let db = FakeDb::new();
    let calls = db.calls.clone();
    let mut cache = OSUsers::empty_cache(db);
    assert_eq!(cache.get_user_by_name("mallory".to_string()), None);
    let bob = cache.get_user_by_uid(1001).unwrap();
    assert_eq!(bob.name, "bob");
    assert_eq!(cache.get_group_by_name("wheel".to_string()), None);
    assert_eq!(cache.get_group_by_gid(200).unwrap().name, "empty");
    assert_eq!(calls.get(), 4);
}

#[test]
fn current_uid_asks_once() {
    let db = FakeDb::new();
    let calls = db.calls.clone();
    let mut cache = OSUsers::empty_cache(db);
    assert_eq!(cache.get_current_uid(), 1000);
    assert_eq!(cache.get_current_uid(), 1000);
    assert_eq!(cache.get_current_uid(), 1000);
    assert_eq!(calls.get(), 1);
}

#[test]
fn group_members_keep_their_order() {
    let mut cache = OSUsers::empty_cache(FakeDb::new());
    let staff = cache.get_group_by_gid(100).unwrap();
    assert_eq!(staff.members, vec!["carol".to_string(), "bob".to_string(), "alice".to_string()]);
    let again = cache.get_group_by_name("staff".to_string()).unwrap();
    assert_eq!(again.members, staff.members);
}

#[test]
fn empty_group_is_not_missing() {
    let mut cache = OSUsers::empty_cache(FakeDb::new());
    let empty = cache.get_group_by_gid(200);
    assert!(empty.is_some());
    assert_eq!(empty.unwrap().members.len(), 0);
    assert_eq!(cache.get_group_by_gid(201), None);
}

#[test]
fn one_shot_lookups_share_nothing() {
    let db = FakeDb::new();
    let calls = db.calls.clone();
    assert_eq!(get_user_by_uid(db.clone(), 1000), Some(alice()));
    assert_eq!(calls.get(), 1);
    assert_eq!(get_user_by_uid(db.clone(), 1000), Some(alice()));
    assert_eq!(calls.get(), 2);
    assert_eq!(get_user_by_name(db.clone(), "alice".to_string()), Some(alice()));
    assert_eq!(get_group_by_gid(db.clone(), 200).unwrap().name, "empty");
    assert_eq!(get_group_by_name(db.clone(), "staff".to_string()).unwrap().gid, 100);
    assert_eq!(get_current_uid(db.clone()), 1000);
    assert_eq!(get_current_uid(db), 1000);
    assert_eq!(calls.get(), 7);
}

#[test]
fn lookups_through_the_trait() {
    fn name_of<U: Users>(u: &mut U, uid: i32) -> Option<String> {
        u.get_user_by_uid(uid).map(|user| user.name)
    }
    let db = FakeDb::new();
    let calls = db.calls.clone();
    let mut cache = OSUsers::empty_cache(db);
    assert_eq!(name_of(&mut cache, 1000), Some("alice".to_string()));
    assert_eq!(name_of(&mut cache, 1000), Some("alice".to_string()));
    assert_eq!(Users::get_current_uid(&mut cache), 1000);
    assert_eq!(calls.get(), 2);
}

#[test]
fn duplicates_are_equal_copies() {
    let staff = FakeDb::new().groups[0].clone();
    let copy = staff.duplicate();
    assert_eq!(copy, staff);
    assert_eq!(copy.members[2], "alice");
    assert_eq!(alice().duplicate(), alice());
}

#[test]
fn resolve_returns_the_reported_user_on_a_miss() {
    let mut cache = OSUsers::empty_cache(FakeDb::new());
    assert!(!cache.knows_uid(1000));
    assert_eq!(cache.resolve_user_by_uid(1000, Some(alice())), Some(alice()));
    assert!(cache.knows_uid(1000));
    assert!(cache.knows_user_name("alice"));
    // Cached now: a different report is not taken.
    assert_eq!(cache.resolve_user_by_uid(1000, None), Some(alice()));
    assert_eq!(cache.resolve_user_by_name("alice".to_string(), None), Some(alice()));
}

#[test]
fn resolve_keeps_a_reported_absence() {
    let mut cache = OSUsers::empty_cache(FakeDb::new());
    assert_eq!(cache.resolve_user_by_uid(9999, None), None);
    assert!(cache.knows_uid(9999));
    assert_eq!(cache.resolve_user_by_uid(9999, Some(alice())), None);
    assert_eq!(cache.resolve_user_by_name("nobody".to_string(), None), None);
    assert!(cache.knows_user_name("nobody"));
    assert!(!cache.knows_uid(1000));
    assert_eq!(cache.resolve_user_by_uid(1000, Some(alice())), Some(alice()));
}

#[test]
fn resolve_by_name_indexes_the_id() {
    let mut cache = OSUsers::empty_cache(FakeDb::new());
    assert_eq!(cache.resolve_user_by_name("alice".to_string(), Some(alice())), Some(alice()));
    assert!(cache.knows_uid(1000));
    assert_eq!(cache.resolve_user_by_uid(1000, None), Some(alice()));
}

#[test]
fn resolve_groups_by_gid_and_name() {
    let staff = FakeDb::new().groups[0].clone();
    let mut cache = OSUsers::empty_cache(FakeDb::new());
    assert!(!cache.knows_gid(100));
    assert_eq!(cache.resolve_group_by_gid(100, Some(staff.clone())), Some(staff.clone()));
    assert!(cache.knows_group_name("staff"));
    assert_eq!(cache.resolve_group_by_name("staff".to_string(), None), Some(staff.clone()));
    assert_eq!(cache.resolve_group_by_name("wheel".to_string(), None), None);
    assert!(cache.knows_group_name("wheel"));
    assert!(!cache.knows_gid(10));
    let empty = Group { gid: 300, name: "none".to_string(), members: vec![] };
    assert_eq!(cache.resolve_group_by_name("none".to_string(), Some(empty.clone())), Some(empty));
    assert!(cache.knows_gid(300));
}

#[test]
fn resolve_current_uid_keeps_the_first_answer() {
    let mut cache = OSUsers::empty_cache(FakeDb::new());
    assert!(!cache.knows_current_uid());
    assert_eq!(cache.resolve_current_uid(42), 42);
    assert!(cache.knows_current_uid());
    assert_eq!(cache.resolve_current_uid(7), 42);
    assert_eq!(cache.get_current_uid(), 42);
}
