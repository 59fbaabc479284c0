//! The caching lookup layer.

use vstd::prelude::*;
use vstd::hash_map::{HashMapWithView, StringHashMap};

use crate::record::{
    copy_group_outcome, copy_user_outcome, group_outcome, user_outcome, Group, GroupView, User,
    UserView,
};
use crate::source::IdentitySource;

verus! {

broadcast use vstd::std_specs::hash::group_hash_axioms;

/// What a cache has learnt, as mathematical maps. An entry holding `None`
/// records a lookup that found nothing.
pub struct CacheView {
    /// User ID to the user found under it
    pub users: Map<i32, Option<UserView>>,
    /// Login name to the ID of the user found under it
    pub users_back: Map<Seq<char>, Option<i32>>,
    /// Group ID to the group found under it
    pub groups: Map<u32, Option<GroupView>>,
    /// Group name to the ID of the group found under it
    pub groups_back: Map<Seq<char>, Option<u32>>,
    /// The running process's user ID, once asked for
    pub uid: Option<i32>,
}

/// The view of a cache that has learnt nothing yet.
pub open spec fn empty_view() -> CacheView {
    CacheView {
        users: Map::empty(),
        users_back: Map::empty(),
        groups: Map::empty(),
        groups_back: Map::empty(),
        uid: None,
    }
}

impl CacheView {
    /// Every name that resolves to an ID resolves to one that the cache
    /// holds an entry for.
    pub open spec fn wf(self) -> bool {
        &&& forall|n: Seq<char>|
            #![trigger self.users_back[n]]
            self.users_back.contains_key(n) && self.users_back[n] is Some
                ==> self.users.contains_key(self.users_back[n]->0)
        &&& forall|n: Seq<char>|
            #![trigger self.groups_back[n]]
            self.groups_back.contains_key(n) && self.groups_back[n] is Some
                ==> self.groups.contains_key(self.groups_back[n]->0)
    }

    /// The user that a cached entry for `name` leads to.
    pub open spec fn user_named(self, name: Seq<char>) -> Option<UserView> {
        match self.users_back[name] {
            Some(id) => if self.users.contains_key(id) {
                self.users[id]
            } else {
                None
            },
            None => None,
        }
    }

    /// The group that a cached entry for `name` leads to.
    pub open spec fn group_named(self, name: Seq<char>) -> Option<GroupView> {
        match self.groups_back[name] {
            Some(id) => if self.groups.contains_key(id) {
                self.groups[id]
            } else {
                None
            },
            None => None,
        }
    }

    /// The cache after the database reported `found` for user ID `uid`: the
    /// outcome is kept under `uid`, and a user found is also indexed by its
    /// name, unless that name already has an entry.
    pub open spec fn record_user_by_uid(self, uid: i32, found: Option<UserView>) -> CacheView {
        CacheView {
            users: self.users.insert(uid, found),
            users_back: match found {
                Some(u) => if self.users_back.contains_key(u.name) {
                    self.users_back
                } else {
                    self.users_back.insert(u.name, Some(uid))
                },
                None => self.users_back,
            },
            ..self
        }
    }

    /// The cache after the database reported `found` for login name `name`:
    /// the found user's ID, or the mark of absence, is kept under `name`, and
    /// a user found is also kept under its ID, unless that ID already has an
    /// entry.
    pub open spec fn record_user_by_name(self, name: Seq<char>, found: Option<UserView>) -> CacheView {
        CacheView {
            users_back: self.users_back.insert(
                name,
                match found {
                    Some(u) => Some(u.uid),
                    None => None,
                },
            ),
            users: match found {
                Some(u) => if self.users.contains_key(u.uid) {
                    self.users
                } else {
                    self.users.insert(u.uid, Some(u))
                },
                None => self.users,
            },
            ..self
        }
    }

    /// The cache after the database reported `uid` as the running process's
    /// user ID.
    pub open spec fn record_current_uid(self, uid: i32) -> CacheView {
        CacheView { uid: Some(uid), ..self }
    }

    /// The cache after the database reported `found` for group ID `gid`.
    pub open spec fn record_group_by_gid(self, gid: u32, found: Option<GroupView>) -> CacheView {
        CacheView {
            groups: self.groups.insert(gid, found),
            groups_back: match found {
                Some(g) => if self.groups_back.contains_key(g.name) {
                    self.groups_back
                } else {
                    self.groups_back.insert(g.name, Some(gid))
                },
                None => self.groups_back,
            },
            ..self
        }
    }

    /// The cache after the database reported `found` for group name `name`.
    pub open spec fn record_group_by_name(self, name: Seq<char>, found: Option<GroupView>) -> CacheView {
        CacheView {
            groups_back: self.groups_back.insert(
                name,
                match found {
                    Some(g) => Some(g.gid),
                    None => None,
                },
            ),
            groups: match found {
                Some(g) => if self.groups.contains_key(g.gid) {
                    self.groups
                } else {
                    self.groups.insert(g.gid, Some(g))
                },
                None => self.groups,
            },
            ..self
        }
    }
    /// A lookup by user ID: the cached answer if the ID has an entry, else
    /// `reported`, the database's answer, which is then recorded.
    pub open spec fn user_by_uid_step(self, uid: i32, reported: Option<UserView>) -> (CacheView, Option<UserView>) {
        if self.users.contains_key(uid) {
            (self, self.users[uid])
        } else {
            (self.record_user_by_uid(uid, reported), reported)
        }
    }

    /// A lookup by login name: the cached answer if the name has an entry,
    /// else `reported`, the database's answer, which is then recorded.
    pub open spec fn user_by_name_step(self, name: Seq<char>, reported: Option<UserView>) -> (CacheView, Option<UserView>) {
        if self.users_back.contains_key(name) {
            (self, self.user_named(name))
        } else {
            (self.record_user_by_name(name, reported), reported)
        }
    }

    /// A lookup by group ID: the cached answer if the ID has an entry, else
    /// `reported`, the database's answer, which is then recorded.
    pub open spec fn group_by_gid_step(self, gid: u32, reported: Option<GroupView>) -> (CacheView, Option<GroupView>) {
        if self.groups.contains_key(gid) {
            (self, self.groups[gid])
        } else {
            (self.record_group_by_gid(gid, reported), reported)
        }
    }

    /// A lookup by group name: the cached answer if the name has an entry,
    /// else `reported`, the database's answer, which is then recorded.
    pub open spec fn group_by_name_step(self, name: Seq<char>, reported: Option<GroupView>) -> (CacheView, Option<GroupView>) {
        if self.groups_back.contains_key(name) {
            (self, self.group_named(name))
        } else {
            (self.record_group_by_name(name, reported), reported)
        }
    }

    /// A request for the running process's user ID: the cached ID if there
    /// is one, else `reported`, the database's answer, which is then kept.
    pub open spec fn current_uid_step(self, reported: i32) -> (CacheView, i32) {
        match self.uid {
            Some(uid) => (self, uid),
            None => (self.record_current_uid(reported), reported),
        }
    }

    /// Every entry of `earlier` is still here, unchanged.
    pub open spec fn extends(self, earlier: CacheView) -> bool {
        &&& earlier.users.submap_of(self.users)
        &&& earlier.users_back.submap_of(self.users_back)
        &&& earlier.groups.submap_of(self.groups)
        &&& earlier.groups_back.submap_of(self.groups_back)
        &&& (earlier.uid is Some) ==> self.uid == earlier.uid
    }
}

/// A producer of user and group records that caches every result, found or
/// not. The cache only grows: to forget what it has learnt, start a new one.
///
/// Each lookup comes in three parts: `knows_*` says whether the cache can
/// answer alone; `resolve_*` takes the database's answer and returns the
/// lookup's result exactly; `get_*` asks the source only when the cache
/// cannot answer, and hands its answer to `resolve_*`.
pub struct OSUsers<S> {
    source: S,
    users: HashMapWithView<i32, Option<User>>,
    users_back: StringHashMap<Option<i32>>,
    groups: HashMapWithView<u32, Option<Group>>,
    groups_back: StringHashMap<Option<u32>>,
    uid: Option<i32>,
}

impl<S> View for OSUsers<S> {
    type V = CacheView;

    closed spec fn view(&self) -> CacheView {
        CacheView {
            users: self.users@.map_values(|o: Option<User>| user_outcome(o)),
            users_back: self.users_back@,
            groups: self.groups@.map_values(|o: Option<Group>| group_outcome(o)),
            groups_back: self.groups_back@,
            uid: self.uid,
        }
    }
}

impl<S> OSUsers<S> {
    /// The database this cache consults; a lookup answered from the cache
    /// leaves it as it was.
    pub closed spec fn source(&self) -> S {
        self.source
    }

    /// Whether a lookup by this user ID is answered from the cache.
    pub fn knows_uid(&self, uid: i32) -> (r: bool)
        ensures
            r == self@.users.contains_key(uid),
    {
        self.users.contains_key(&uid)
    }

    /// Whether a lookup by this login name is answered from the cache.
    pub fn knows_user_name(&self, name: &str) -> (r: bool)
        ensures
            r == self@.users_back.contains_key(name@),
    {
        self.users_back.contains_key(name)
    }

    /// Whether a lookup by this group ID is answered from the cache.
    pub fn knows_gid(&self, gid: u32) -> (r: bool)
        ensures
            r == self@.groups.contains_key(gid),
    {
        self.groups.contains_key(&gid)
    }

    /// Whether a lookup by this group name is answered from the cache.
    pub fn knows_group_name(&self, name: &str) -> (r: bool)
        ensures
            r == self@.groups_back.contains_key(name@),
    {
        self.groups_back.contains_key(name)
    }

    /// Whether the running process's user ID is answered from the cache.
    pub fn knows_current_uid(&self) -> (r: bool)
        ensures
            r == (self@.uid != Option::<i32>::None),
    {
        self.uid.is_some()
    }

    /// The outcome of a lookup by user ID when the database answers
    /// `reported`: the cached answer if there is one, else `reported`,
    /// which is recorded.
    pub fn resolve_user_by_uid(&mut self, uid: i32, reported: Option<User>) -> (r: Option<User>)
        ensures
            (final(self)@, user_outcome(r)) == old(self)@.user_by_uid_step(uid, user_outcome(reported)),
            final(self).source() == old(self).source(),
            final(self)@.extends(old(self)@),
            old(self)@.wf() ==> final(self)@.wf(),
    {
        match self.users.get(&uid) {
            Some(entry) => {
                return copy_user_outcome(entry);
            },
            None => {},
        }
        let ghost before = self@;
        match &reported {
            Some(user) => {
                self.users.insert(uid, Some(user.duplicate()));
                if !self.users_back.contains_key(user.name.as_str()) {
                    self.users_back.insert(user.name.clone(), Some(uid));
                }
            },
            None => {
                self.users.insert(uid, None);
            },
        }
        assert(self@.users =~= before.users.insert(uid, user_outcome(reported)));
        assert(self@ =~= before.record_user_by_uid(uid, user_outcome(reported)));
        reported
    }

    /// The outcome of a lookup by login name when the database answers
    /// `reported`: the cached answer if there is one, else `reported`,
    /// which is recorded.
    pub fn resolve_user_by_name(&mut self, username: String, reported: Option<User>) -> (r: Option<User>)
        ensures
            (final(self)@, user_outcome(r)) == old(self)@.user_by_name_step(username@, user_outcome(reported)),
            final(self).source() == old(self).source(),
            final(self)@.extends(old(self)@),
            old(self)@.wf() ==> final(self)@.wf(),
    {
        match self.users_back.get(username.as_str()) {
            Some(Some(id)) => {
                return match self.users.get(id) {
                    Some(entry) => copy_user_outcome(entry),
                    None => None,
                };
            },
            Some(None) => {
                return None;
            },
            None => {},
        }
        let ghost before = self@;
        match &reported {
            Some(user) => {
                if !self.users.contains_key(&user.uid) {
                    self.users.insert(user.uid, Some(user.duplicate()));
                }
                self.users_back.insert(username, Some(user.uid));
            },
            None => {
                self.users_back.insert(username, None);
            },
        }
        assert(self@.users =~= before.record_user_by_name(username@, user_outcome(reported)).users);
        assert(self@ =~= before.record_user_by_name(username@, user_outcome(reported)));
        reported
    }

    /// The outcome of a lookup by group ID when the database answers
    /// `reported`: the cached answer if there is one, else `reported`,
    /// which is recorded.
    pub fn resolve_group_by_gid(&mut self, gid: u32, reported: Option<Group>) -> (r: Option<Group>)
        ensures
            (final(self)@, group_outcome(r)) == old(self)@.group_by_gid_step(gid, group_outcome(reported)),
            final(self).source() == old(self).source(),
            final(self)@.extends(old(self)@),
            old(self)@.wf() ==> final(self)@.wf(),
    {
        match self.groups.get(&gid) {
            Some(entry) => {
                return copy_group_outcome(entry);
            },
            None => {},
        }
        let ghost before = self@;
        match &reported {
            Some(group) => {
                self.groups.insert(gid, Some(group.duplicate()));
                if !self.groups_back.contains_key(group.name.as_str()) {
                    self.groups_back.insert(group.name.clone(), Some(gid));
                }
            },
            None => {
                self.groups.insert(gid, None);
            },
        }
        assert(self@.groups =~= before.groups.insert(gid, group_outcome(reported)));
        assert(self@ =~= before.record_group_by_gid(gid, group_outcome(reported)));
        reported
    }

    /// The outcome of a lookup by group name when the database answers
    /// `reported`: the cached answer if there is one, else `reported`,
    /// which is recorded.
    pub fn resolve_group_by_name(&mut self, group_name: String, reported: Option<Group>) -> (r: Option<Group>)
        ensures
            (final(self)@, group_outcome(r)) == old(self)@.group_by_name_step(group_name@, group_outcome(reported)),
            final(self).source() == old(self).source(),
            final(self)@.extends(old(self)@),
            old(self)@.wf() ==> final(self)@.wf(),
    {
        match self.groups_back.get(group_name.as_str()) {
            Some(Some(id)) => {
                return match self.groups.get(id) {
                    Some(entry) => copy_group_outcome(entry),
                    None => None,
                };
            },
            Some(None) => {
                return None;
            },
            None => {},
        }
        let ghost before = self@;
        match &reported {
            Some(group) => {
                if !self.groups.contains_key(&group.gid) {
                    self.groups.insert(group.gid, Some(group.duplicate()));
                }
                self.groups_back.insert(group_name, Some(group.gid));
            },
            None => {
                self.groups_back.insert(group_name, None);
            },
        }
        assert(self@.groups =~= before.record_group_by_name(group_name@, group_outcome(reported)).groups);
        assert(self@ =~= before.record_group_by_name(group_name@, group_outcome(reported)));
        reported
    }

    /// The running process's user ID when the database answers `reported`:
    /// the cached ID if there is one, else `reported`, which is kept.
    pub fn resolve_current_uid(&mut self, reported: i32) -> (r: i32)
        ensures
            (final(self)@, r) == old(self)@.current_uid_step(reported),
            final(self).source() == old(self).source(),
            final(self)@.extends(old(self)@),
            old(self)@.wf() ==> final(self)@.wf(),
    {
        match self.uid {
            Some(uid) => uid,
            None => {
                self.uid = Some(reported);
                reported
            },
        }
    }
}

impl<S: IdentitySource> OSUsers<S> {
    /// Create a new empty cache in front of `source`.
    pub fn empty_cache(source: S) -> (r: OSUsers<S>)
        ensures
            r@ == empty_view(),
            r@.wf(),
            r.source() == source,
    {
        let r = OSUsers {
            source,
            users: HashMapWithView::new(),
            users_back: StringHashMap::new(),
            groups: HashMapWithView::new(),
            groups_back: StringHashMap::new(),
            uid: None,
        };
        assert(r@.users =~= Map::empty());
        assert(r@.groups =~= Map::empty());
        r
    }

    /// Return a User object if one exists for the given user ID; otherwise,
    /// return None. An ID looked up before is answered from the cache;
    /// otherwise the source is asked and its answer, as `resolve_user_by_uid`
    /// states, is returned and recorded.
    pub fn get_user_by_uid(&mut self, uid: i32) -> (r: Option<User>)
        ensures
            old(self)@.users.contains_key(uid) ==> {
                &&& user_outcome(r) == old(self)@.users[uid]
                &&& final(self)@ == old(self)@
                &&& final(self).source() == old(self).source()
            },
            !(old(self)@.users.contains_key(uid)) ==> final(self)@ == old(self)@.record_user_by_uid(uid, user_outcome(r)),
            final(self)@.extends(old(self)@),
            old(self)@.wf() ==> final(self)@.wf(),
    {
        if self.knows_uid(uid) {
            return self.resolve_user_by_uid(uid, None);
        }
        let reported = self.source.user_by_uid(uid);
        self.resolve_user_by_uid(uid, reported)
    }

    /// Return a User object if one exists for the given username; otherwise,
    /// return None. A name looked up before, or learnt from a lookup by ID,
    /// is answered from the cache; otherwise the source is asked and its
    /// answer, as `resolve_user_by_name` states, is returned and recorded.
    pub fn get_user_by_name(&mut self, username: String) -> (r: Option<User>)
        ensures
            old(self)@.users_back.contains_key(username@) ==> {
                &&& user_outcome(r) == old(self)@.user_named(username@)
                &&& final(self)@ == old(self)@
                &&& final(self).source() == old(self).source()
            },
            !(old(self)@.users_back.contains_key(username@)) ==> final(self)@ == old(self)@.record_user_by_name(username@, user_outcome(r)),
            final(self)@.extends(old(self)@),
            old(self)@.wf() ==> final(self)@.wf(),
    {
        if self.knows_user_name(username.as_str()) {
            return self.resolve_user_by_name(username, None);
        }
        let reported = self.source.user_by_name(username.as_str());
        self.resolve_user_by_name(username, reported)
    }

    /// Return a Group object if one exists for the given group ID; otherwise,
    /// return None. An ID looked up before is answered from the cache;
    /// otherwise the source is asked and its answer, as `resolve_group_by_gid`
    /// states, is returned and recorded.
    pub fn get_group_by_gid(&mut self, gid: u32) -> (r: Option<Group>)
        ensures
            old(self)@.groups.contains_key(gid) ==> {
                &&& group_outcome(r) == old(self)@.groups[gid]
                &&& final(self)@ == old(self)@
                &&& final(self).source() == old(self).source()
            },
            !(old(self)@.groups.contains_key(gid)) ==> final(self)@ == old(self)@.record_group_by_gid(gid, group_outcome(r)),
            final(self)@.extends(old(self)@),
            old(self)@.wf() ==> final(self)@.wf(),
    {
        if self.knows_gid(gid) {
            return self.resolve_group_by_gid(gid, None);
        }
        let reported = self.source.group_by_gid(gid);
        self.resolve_group_by_gid(gid, reported)
    }

    /// Return a Group object if one exists for the given group name;
    /// otherwise, return None. A name looked up before, or learnt from a
    /// lookup by ID, is answered from the cache; otherwise the source is asked
    /// and its answer, as `resolve_group_by_name` states, is returned and
    /// recorded.
    pub fn get_group_by_name(&mut self, group_name: String) -> (r: Option<Group>)
        ensures
            old(self)@.groups_back.contains_key(group_name@) ==> {
                &&& group_outcome(r) == old(self)@.group_named(group_name@)
                &&& final(self)@ == old(self)@
                &&& final(self).source() == old(self).source()
            },
            !(old(self)@.groups_back.contains_key(group_name@)) ==> final(self)@ == old(self)@.record_group_by_name(group_name@, group_outcome(r)),
            final(self)@.extends(old(self)@),
            old(self)@.wf() ==> final(self)@.wf(),
    {
        if self.knows_group_name(group_name.as_str()) {
            return self.resolve_group_by_name(group_name, None);
        }
        let reported = self.source.group_by_name(group_name.as_str());
        self.resolve_group_by_name(group_name, reported)
    }

    /// Return the user ID for the user running the program. The source is
    /// asked once per cache; later calls repeat its answer.
    pub fn get_current_uid(&mut self) -> (r: i32)
        ensures
            old(self)@.uid != Option::<i32>::None ==> {
                &&& r == old(self)@.uid->0
                &&& final(self)@ == old(self)@
                &&& final(self).source() == old(self).source()
            },
            !(old(self)@.uid != Option::<i32>::None) ==> final(self)@ == old(self)@.record_current_uid(r),
            final(self)@.extends(old(self)@),
            old(self)@.wf() ==> final(self)@.wf(),
    {
        if self.knows_current_uid() {
            return self.resolve_current_uid(0);
        }
        let reported = self.source.current_uid();
        self.resolve_current_uid(reported)
    }
}

} // verus!
