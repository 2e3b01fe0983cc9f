//! The endpoints of the first ring.
//!
//! Going forward counts every member, verified or not; going back counts
//! the verified members only.

use crate::jess_museum::members::Model;
use crate::ring::{
    candidates, find_current, is_current, locate_neighbor, located, named, scope_positions, Direction,
    Predicate,
};
use vstd::prelude::*;

verus! {

/// A member as the public list shows it.
#[derive(Debug, Clone, PartialEq, Eq)]
pub struct SerializeableMember {
    pub username: String,
    pub url: String,
}

/// The public list of members.
#[derive(Debug, Clone, PartialEq, Eq)]
pub struct MembersResponse {
    pub members: Vec<SerializeableMember>,
}

/// The member called `username`, verified or not.
pub fn get_member<'a>(members: &'a Vec<Model>, username: &str) -> (r: Option<&'a Model>)
    ensures
        match r {
            Some(member) => exists|c: int| #[trigger]
                is_current(members@, Predicate::Any, username@, c) && *member == members@[c],
            None => forall|i: int| !named(members@, Predicate::Any, username@, i),
        },
{
    match find_current(members, Predicate::Any, username) {
        Some(c) => {
            assert(is_current(members@, Predicate::Any, username@, c as int));
            Some(&members[c])
        },
        None => None,
    }
}

/// The member after the one called `username`, among all members.
pub fn get_member_next<'a>(members: &'a Vec<Model>, username: &str) -> (r: Option<&'a Model>)
    ensures
        match r {
            Some(member) => exists|j: int| #[trigger]
                located(members@, Predicate::Any, username@, Direction::Next, j) && *member == members@[j],
            None => forall|i: int| !named(members@, Predicate::Any, username@, i),
        },
{
    locate_neighbor(members, Predicate::Any, username, Direction::Next)
}

/// The member before the one called `username`, among the verified
/// members.
pub fn get_member_prev<'a>(members: &'a Vec<Model>, username: &str) -> (r: Option<&'a Model>)
    ensures
        match r {
            Some(member) => exists|j: int| #[trigger]
                located(members@, Predicate::Verified, username@, Direction::Prev, j) && *member == members@[j],
            None => forall|i: int| !named(members@, Predicate::Verified, username@, i),
        },
{
    locate_neighbor(members, Predicate::Verified, username, Direction::Prev)
}

/// The verified members, in the order of the snapshot, each with its name
/// and its address.
pub fn get_all_members(members: &Vec<Model>) -> (r: MembersResponse)
    ensures
        r.members@.len() == candidates(members@, Predicate::Verified).len(),
        forall|x: int|
            0 <= x < r.members@.len() ==> {
                let member = members@[candidates(members@, Predicate::Verified)[x]];
                (#[trigger] r.members@[x]).username@ == member.username@ && r.members@[x].url@ == member.url@
            },
{
    let verified = scope_positions(members, Predicate::Verified);
    proof {
        crate::ring::positions_are_the_scope(members@, Predicate::Verified, members@.len() as int);
    }
    let mut listed: Vec<SerializeableMember> = Vec::new();
    let mut x: usize = 0;
    while x < verified.len()
        invariant
            x <= verified.len(),
            verified@.len() == candidates(members@, Predicate::Verified).len(),
            forall|y: int|
                0 <= y < verified@.len() ==> verified@[y] as int == candidates(members@, Predicate::Verified)[y],
            forall|y: int|
                0 <= y < verified@.len() ==> 0 <= #[trigger] candidates(members@, Predicate::Verified)[y]
                    < members@.len(),
            listed@.len() == x,
            forall|y: int|
                0 <= y < x ==> {
                    let member = members@[candidates(members@, Predicate::Verified)[y]];
                    (#[trigger] listed@[y]).username@ == member.username@ && listed@[y].url@ == member.url@
                },
        decreases verified.len() - x,
    {
        let member = &members[verified[x]];
        listed.push(SerializeableMember { username: member.username.clone(), url: member.url.clone() });
        x += 1;
    }
    MembersResponse { members: listed }
}

} // verus!
