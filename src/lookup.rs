//! The lookup interface, and one-shot lookups that keep no cache.

use vstd::prelude::*;

use crate::cache::OSUsers;
use crate::record::{group_outcome, user_outcome, Group, User};
use crate::source::IdentitySource;

verus! {

/// The lookups that a producer of user and group records offers. The
/// caching producer, `OSUsers`, states in each method what it returns.
pub trait Users {
    /// Return a User object if one exists for the given user ID; otherwise, return None.
    fn get_user_by_uid(&mut self, uid: i32) -> Option<User>;

    /// Return a User object if one exists for the given username; otherwise, return None.
    fn get_user_by_name(&mut self, username: String) -> Option<User>;

    /// Return a Group object if one exists for the given group ID; otherwise, return None.
    fn get_group_by_gid(&mut self, gid: u32) -> Option<Group>;

    /// Return a Group object if one exists for the given groupname; otherwise, return None.
    fn get_group_by_name(&mut self, group_name: String) -> Option<Group>;

    /// Return the user ID for the user running the program.
    fn get_current_uid(&mut self) -> i32;
}

impl<S: IdentitySource> Users for OSUsers<S> {
    fn get_user_by_uid(&mut self, uid: i32) -> (r: Option<User>)
        ensures
            old(self)@.users.contains_key(uid) ==> {
                &&& user_outcome(r) == old(self)@.users[uid]
                &&& final(self)@ == old(self)@
                &&& final(self).source() == old(self).source()
            },
            !old(self)@.users.contains_key(uid) ==> final(self)@
                == old(self)@.record_user_by_uid(uid, user_outcome(r)),
            final(self)@.extends(old(self)@),
            old(self)@.wf() ==> final(self)@.wf(),
    {
        OSUsers::get_user_by_uid(self, uid)
    }

    fn get_user_by_name(&mut self, username: String) -> (r: Option<User>)
        ensures
            old(self)@.users_back.contains_key(username@) ==> {
                &&& user_outcome(r) == old(self)@.user_named(username@)
                &&& final(self)@ == old(self)@
                &&& final(self).source() == old(self).source()
            },
            !old(self)@.users_back.contains_key(username@) ==> final(self)@
                == old(self)@.record_user_by_name(username@, user_outcome(r)),
            final(self)@.extends(old(self)@),
            old(self)@.wf() ==> final(self)@.wf(),
    {
        OSUsers::get_user_by_name(self, username)
    }

    fn get_group_by_gid(&mut self, gid: u32) -> (r: Option<Group>)
        ensures
            old(self)@.groups.contains_key(gid) ==> {
                &&& group_outcome(r) == old(self)@.groups[gid]
                &&& final(self)@ == old(self)@
                &&& final(self).source() == old(self).source()
            },
            !old(self)@.groups.contains_key(gid) ==> final(self)@
                == old(self)@.record_group_by_gid(gid, group_outcome(r)),
            final(self)@.extends(old(self)@),
            old(self)@.wf() ==> final(self)@.wf(),
    {
        OSUsers::get_group_by_gid(self, gid)
    }

    fn get_group_by_name(&mut self, group_name: String) -> (r: Option<Group>)
        ensures
            old(self)@.groups_back.contains_key(group_name@) ==> {
                &&& group_outcome(r) == old(self)@.group_named(group_name@)
                &&& final(self)@ == old(self)@
                &&& final(self).source() == old(self).source()
            },
            !old(self)@.groups_back.contains_key(group_name@) ==> final(self)@
                == old(self)@.record_group_by_name(group_name@, group_outcome(r)),
            final(self)@.extends(old(self)@),
            old(self)@.wf() ==> final(self)@.wf(),
    {
        OSUsers::get_group_by_name(self, group_name)
    }

    fn get_current_uid(&mut self) -> (r: i32)
        ensures
            old(self)@.uid != Option::<i32>::None ==> {
                &&& r == old(self)@.uid->0
                &&& final(self)@ == old(self)@
                &&& final(self).source() == old(self).source()
            },
            old(self)@.uid == Option::<i32>::None ==> final(self)@
                == old(self)@.record_current_uid(r),
            final(self)@.extends(old(self)@),
            old(self)@.wf() ==> final(self)@.wf(),
    {
        OSUsers::get_current_uid(self)
    }
}

/// Return a User object if one exists for the given user ID; otherwise,
/// return None. Each call starts from an empty cache, so `source` is always
/// asked.
pub fn get_user_by_uid<S: IdentitySource>(source: S, uid: i32) -> Option<User> {
    let mut cache = OSUsers::empty_cache(source);
    cache.get_user_by_uid(uid)
}

/// Return a User object if one exists for the given username; otherwise,
/// return None. Each call starts from an empty cache, so `source` is always
/// asked.
pub fn get_user_by_name<S: IdentitySource>(source: S, username: String) -> Option<User> {
    let mut cache = OSUsers::empty_cache(source);
    cache.get_user_by_name(username)
}

/// Return a Group object if one exists for the given group ID; otherwise,
/// return None. Each call starts from an empty cache, so `source` is always
/// asked.
pub fn get_group_by_gid<S: IdentitySource>(source: S, gid: u32) -> Option<Group> {
    let mut cache = OSUsers::empty_cache(source);
    cache.get_group_by_gid(gid)
}

/// Return a Group object if one exists for the given groupname; otherwise,
/// return None. Each call starts from an empty cache, so `source` is always
/// asked.
pub fn get_group_by_name<S: IdentitySource>(source: S, group_name: String) -> Option<Group> {
    let mut cache = OSUsers::empty_cache(source);
    cache.get_group_by_name(group_name)
}

/// Return the user ID for the user running the program, as `source` reports
/// it.
pub fn get_current_uid<S: IdentitySource>(source: S) -> i32 {
    let mut cache = OSUsers::empty_cache(source);
    cache.get_current_uid()
}

} // verus!
