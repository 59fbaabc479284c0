//! The host's identity database, as the cache sees it.

use vstd::prelude::*;

use crate::record::{Group, User};

verus! {

/// Something that answers the four identity queries and says who runs this
/// process: on a real system, the operating system's user and group
/// database. The cache consults it only on a miss.
///
/// Nothing is assumed of the answers: the database may change at any time,
/// so each answer is taken as it comes.
pub trait IdentitySource {
    /// The record of the user with this ID, if there is one.
    fn user_by_uid(&mut self, uid: i32) -> Option<User>;

    /// The record of the user with this login name, if there is one.
    fn user_by_name(&mut self, name: &str) -> Option<User>;

    /// The record of the group with this ID, if there is one.
    fn group_by_gid(&mut self, gid: u32) -> Option<Group>;

    /// The record of the group with this name, if there is one.
    fn group_by_name(&mut self, name: &str) -> Option<Group>;

    /// The user ID of the running process.
    fn current_uid(&mut self) -> i32;
}

} // verus!
