//! What holds of every cache across lookups, stated over `CacheView` and the
//! `*_step` functions with which the `resolve_*` methods of `OSUsers` state
//! their outcomes. `reported` is what the database answers if it is asked;
//! a step that returns the cache unchanged did not need it.

use vstd::map_lib::lemma_submap_of_trans;
use vstd::prelude::*;

use crate::cache::{empty_view, CacheView};
use crate::record::{GroupView, UserView};

verus! {

/// Every cache extends itself, and extending is transitive: a cache reached
/// through any sequence of lookups keeps every entry of each earlier state.
pub proof fn lemma_extends_chain(a: CacheView, b: CacheView, c: CacheView)
    ensures
        a.extends(a),
        b.extends(a) && c.extends(b) ==> c.extends(a),
{
    if b.extends(a) && c.extends(b) {
        lemma_submap_of_trans(a.users, b.users, c.users);
        lemma_submap_of_trans(a.users_back, b.users_back, c.users_back);
        lemma_submap_of_trans(a.groups, b.groups, c.groups);
        lemma_submap_of_trans(a.groups_back, b.groups_back, c.groups_back);
    }
}

/// Once a user ID has an entry, every later lookup by that ID, however many
/// lookups came between, returns that entry without asking the database.
pub proof fn lemma_user_by_uid_persists(c0: CacheView, c1: CacheView, uid: i32, reported: Option<UserView>)
    requires
        c0.users.contains_key(uid),
        c1.extends(c0),
    ensures
        c1.user_by_uid_step(uid, reported) == (c1, c0.users[uid]),
{
}

/// Once a login name has an entry, every later lookup by that name returns
/// the same answer without asking the database.
pub proof fn lemma_user_by_name_persists(c0: CacheView, c1: CacheView, name: Seq<char>, reported: Option<UserView>)
    requires
        c0.wf(),
        c0.users_back.contains_key(name),
        c1.extends(c0),
    ensures
        c1.user_by_name_step(name, reported) == (c1, c0.user_named(name)),
{
    if let Some(id) = c0.users_back[name] {
        assert(c0.users.contains_key(id));
    }
}

/// Once a group ID has an entry, every later lookup by that ID returns that
/// entry without asking the database.
pub proof fn lemma_group_by_gid_persists(c0: CacheView, c1: CacheView, gid: u32, reported: Option<GroupView>)
    requires
        c0.groups.contains_key(gid),
        c1.extends(c0),
    ensures
        c1.group_by_gid_step(gid, reported) == (c1, c0.groups[gid]),
{
}

/// Once a group name has an entry, every later lookup by that name returns
/// the same answer without asking the database.
pub proof fn lemma_group_by_name_persists(c0: CacheView, c1: CacheView, name: Seq<char>, reported: Option<GroupView>)
    requires
        c0.wf(),
        c0.groups_back.contains_key(name),
        c1.extends(c0),
    ensures
        c1.group_by_name_step(name, reported) == (c1, c0.group_named(name)),
{
    if let Some(id) = c0.groups_back[name] {
        assert(c0.groups.contains_key(id));
    }
}

/// Once the running process's user ID is known, every later request returns
/// it without asking the database.
pub proof fn lemma_current_uid_persists(c0: CacheView, c1: CacheView, reported: i32)
    requires
        c0.uid != Option::<i32>::None,
        c1.extends(c0),
    ensures
        c1.current_uid_step(reported) == (c1, c0.uid->0),
{
}

/// Each lookup step keeps every entry that was there before.
pub proof fn lemma_steps_extend(
    c: CacheView,
    uid: i32,
    name: Seq<char>,
    gid: u32,
    group_name: Seq<char>,
    user: Option<UserView>,
    group: Option<GroupView>,
    me: i32,
)
    ensures
        c.user_by_uid_step(uid, user).0.extends(c),
        c.user_by_name_step(name, user).0.extends(c),
        c.group_by_gid_step(gid, group).0.extends(c),
        c.group_by_name_step(group_name, group).0.extends(c),
        c.current_uid_step(me).0.extends(c),
{
}

/// A lookup by user ID returns an answer, found or not, that a repeat of it
/// returns again from the cache, whatever the database would now say.
pub proof fn lemma_user_by_uid_repeats(c: CacheView, uid: i32, reported: Option<UserView>, later: Option<UserView>)
    ensures
        ({
            let (c1, r1) = c.user_by_uid_step(uid, reported);
            c1.user_by_uid_step(uid, later) == (c1, r1)
        }),
{
}

/// A lookup by group ID returns an answer, found or not, that a repeat of it
/// returns again from the cache, whatever the database would now say.
pub proof fn lemma_group_by_gid_repeats(c: CacheView, gid: u32, reported: Option<GroupView>, later: Option<GroupView>)
    ensures
        ({
            let (c1, r1) = c.group_by_gid_step(gid, reported);
            c1.group_by_gid_step(gid, later) == (c1, r1)
        }),
{
}

/// A lookup by name that found nothing is answered with nothing from then
/// on, without asking the database.
pub proof fn lemma_name_absence_repeats(
    c: CacheView,
    name: Seq<char>,
    group_name: Seq<char>,
    later_user: Option<UserView>,
    later_group: Option<GroupView>,
)
    requires
        !c.users_back.contains_key(name),
        !c.groups_back.contains_key(group_name),
    ensures
        ({
            let (c1, r1) = c.user_by_name_step(name, None);
            r1 == Option::<UserView>::None && c1.user_by_name_step(name, later_user) == (c1, r1)
        }),
        ({
            let (c1, r1) = c.group_by_name_step(group_name, None);
            r1 == Option::<GroupView>::None && c1.group_by_name_step(group_name, later_group) == (c1, r1)
        }),
{
}

/// The first request for the running process's user ID returns what the
/// database reports, and every repeat returns the same ID from the cache.
pub proof fn lemma_current_uid_repeats(c: CacheView, reported: i32, later: i32)
    ensures
        c.uid == Option::<i32>::None ==> c.current_uid_step(reported).1 == reported,
        ({
            let (c1, r1) = c.current_uid_step(reported);
            c1.current_uid_step(later) == (c1, r1)
        }),
{
}

/// After a lookup by ID that the database answered with user `u`, a lookup
/// by `u`'s name returns `u` from the cache, unless that name was already
/// cached as leading elsewhere.
pub proof fn lemma_user_name_follows_uid(c: CacheView, uid: i32, u: UserView, later: Option<UserView>)
    requires
        !c.users.contains_key(uid),
        !c.users_back.contains_key(u.name) || c.users_back[u.name] == Some(uid),
    ensures
        ({
            let (c1, r1) = c.user_by_uid_step(uid, Some(u));
            r1 == Some(u) && c1.user_by_name_step(u.name, later) == (c1, Some(u))
        }),
{
}

/// After a lookup by ID that the database answered with group `g`, a lookup
/// by `g`'s name returns `g` from the cache, unless that name was already
/// cached as leading elsewhere.
pub proof fn lemma_group_name_follows_gid(c: CacheView, gid: u32, g: GroupView, later: Option<GroupView>)
    requires
        !c.groups.contains_key(gid),
        !c.groups_back.contains_key(g.name) || c.groups_back[g.name] == Some(gid),
    ensures
        ({
            let (c1, r1) = c.group_by_gid_step(gid, Some(g));
            r1 == Some(g) && c1.group_by_name_step(g.name, later) == (c1, Some(g))
        }),
{
}

/// After a lookup by name that the database answered with user `u`, a
/// lookup by `u`'s ID is answered from the cache, with `u` itself unless
/// that ID had an entry before.
pub proof fn lemma_user_uid_follows_name(c: CacheView, name: Seq<char>, u: UserView, later: Option<UserView>)
    requires
        !c.users_back.contains_key(name),
    ensures
        ({
            let (c1, r1) = c.user_by_name_step(name, Some(u));
            &&& r1 == Some(u)
            &&& c1.user_by_uid_step(u.uid, later).0 == c1
            &&& !c.users.contains_key(u.uid) ==> c1.user_by_uid_step(u.uid, later).1 == Some(u)
        }),
{
}

/// After a lookup by name that the database answered with group `g`, a
/// lookup by `g`'s ID is answered from the cache, with `g` itself unless
/// that ID had an entry before.
pub proof fn lemma_group_gid_follows_name(c: CacheView, name: Seq<char>, g: GroupView, later: Option<GroupView>)
    requires
        !c.groups_back.contains_key(name),
    ensures
        ({
            let (c1, r1) = c.group_by_name_step(name, Some(g));
            &&& r1 == Some(g)
            &&& c1.group_by_gid_step(g.gid, later).0 == c1
            &&& !c.groups.contains_key(g.gid) ==> c1.group_by_gid_step(g.gid, later).1 == Some(g)
        }),
{
}

/// A lookup that found nothing does not spread to the other kind of key: a
/// later lookup by a key not yet cached returns what the database reports.
pub proof fn lemma_absence_does_not_spread(
    c: CacheView,
    uid: i32,
    name: Seq<char>,
    user: Option<UserView>,
    gid: u32,
    group_name: Seq<char>,
    group: Option<GroupView>,
)
    ensures
        !c.users_back.contains_key(name) ==> c.user_by_uid_step(uid, None).0.user_by_name_step(name, user).1 == user,
        !c.users.contains_key(uid) ==> c.user_by_name_step(name, None).0.user_by_uid_step(uid, user).1 == user,
        !c.groups_back.contains_key(group_name) ==> c.group_by_gid_step(gid, None).0.group_by_name_step(group_name, group).1 == group,
        !c.groups.contains_key(gid) ==> c.group_by_name_step(group_name, None).0.group_by_gid_step(gid, group).1 == group,
{
}

/// A group that the database reports is returned and cached with its member
/// list exactly as reported, in the same order; a group with no members is
/// still a group found.
pub proof fn lemma_group_members_kept(c: CacheView, gid: u32, g: GroupView)
    requires
        !c.groups.contains_key(gid),
    ensures
        ({
            let (c1, r1) = c.group_by_gid_step(gid, Some(g));
            &&& r1 != Option::<GroupView>::None
            &&& r1->0.members == g.members
            &&& c1.groups[gid]->0.members == g.members
        }),
{
}

/// A new cache holds no entry, so a lookup on it, as each one-shot lookup
/// makes, asks the database and returns exactly its answer.
pub proof fn lemma_fresh_cache_asks(
    uid: i32,
    name: Seq<char>,
    user: Option<UserView>,
    gid: u32,
    group_name: Seq<char>,
    group: Option<GroupView>,
    me: i32,
)
    ensures
        !empty_view().users.contains_key(uid),
        !empty_view().users_back.contains_key(name),
        !empty_view().groups.contains_key(gid),
        !empty_view().groups_back.contains_key(group_name),
        empty_view().uid == Option::<i32>::None,
        empty_view().wf(),
        empty_view().user_by_uid_step(uid, user).1 == user,
        empty_view().user_by_name_step(name, user).1 == user,
        empty_view().group_by_gid_step(gid, group).1 == group,
        empty_view().group_by_name_step(group_name, group).1 == group,
        empty_view().current_uid_step(me).1 == me,
{
}

} // verus!
