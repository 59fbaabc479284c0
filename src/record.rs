//! The owned values that a lookup hands back.

use vstd::prelude::*;

verus! {

/// Information about a particular user.
#[derive(Clone, Debug, PartialEq, Eq)]
pub struct User {
    /// This user's ID
    pub uid: i32,
    /// This user's name
    pub name: String,
    /// The ID of this user's primary group
    pub primary_group: u32,
}

/// Information about a particular group.
#[derive(Clone, Debug, PartialEq, Eq)]
pub struct Group {
    /// This group's ID
    pub gid: u32,
    /// This group's name
    pub name: String,
    /// The names of the users who belong to this group as non-primary
    /// members, in the order the database lists them
    pub members: Vec<String>,
}

/// A user record as a mathematical value.
pub struct UserView {
    pub uid: i32,
    pub name: Seq<char>,
    pub primary_group: u32,
}

/// A group record as a mathematical value.
pub struct GroupView {
    pub gid: u32,
    pub name: Seq<char>,
    pub members: Seq<Seq<char>>,
}

impl View for User {
    type V = UserView;

    open spec fn view(&self) -> UserView {
        UserView { uid: self.uid, name: self.name@, primary_group: self.primary_group }
    }
}

/// The text of each name in a list of names.
pub open spec fn names_view(names: Seq<String>) -> Seq<Seq<char>> {
    names.map_values(|s: String| s@)
}

impl View for Group {
    type V = GroupView;

    open spec fn view(&self) -> GroupView {
        GroupView { gid: self.gid, name: self.name@, members: names_view(self.members@) }
    }
}

/// The view of a user lookup's outcome.
pub open spec fn user_outcome(o: Option<User>) -> Option<UserView> {
    match o {
        Some(u) => Some(u@),
        None => None,
    }
}

/// The view of a group lookup's outcome.
pub open spec fn group_outcome(o: Option<Group>) -> Option<GroupView> {
    match o {
        Some(g) => Some(g@),
        None => None,
    }
}

impl User {
    /// An owned copy of this record.
    pub fn duplicate(&self) -> (r: User)
        ensures
            r@ == self@,
    {
        User { uid: self.uid, name: self.name.clone(), primary_group: self.primary_group }
    }
}

impl Group {
    /// An owned copy of this record, members in the same order.
    pub fn duplicate(&self) -> (r: Group)
        ensures
            r@ == self@,
    {
        let mut members: Vec<String> = Vec::new();
        let mut i: usize = 0;
        while i < self.members.len()
            invariant
                i <= self.members@.len(),
                members@.len() == i,
                forall|j: int| 0 <= j < i ==> #[trigger] members@[j]@ == self.members@[j]@,
            decreases self.members@.len() - i,
        {
            members.push(self.members[i].clone());
            i = i + 1;
        }
        assert(names_view(members@) =~= names_view(self.members@));
        Group { gid: self.gid, name: self.name.clone(), members }
    }
}

/// An owned copy of a cached user outcome.
pub fn copy_user_outcome(o: &Option<User>) -> (r: Option<User>)
    ensures
        user_outcome(r) == user_outcome(*o),
{
    match o {
        Some(u) => Some(u.duplicate()),
        None => None,
    }
}

/// An owned copy of a cached group outcome.
pub fn copy_group_outcome(o: &Option<Group>) -> (r: Option<Group>)
    ensures
        group_outcome(r) == group_outcome(*o),
{
    match o {
        Some(g) => Some(g.duplicate()),
        None => None,
    }
}

} // verus!
