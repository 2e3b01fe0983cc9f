//! The endpoints that need no token.
//!
//! Going forward counts every member, verified or not; going back and the
//! random picks count the verified members only.

use crate::api::{PublicAdResponse, Serializeableuser, UsersResponse};
use crate::database::ads;
use crate::database::users;
use crate::ring::{
    candidates, find_current, in_scope, is_current, locate_neighbor, located, named, scope_positions,
    seeded_selection, select_random, Direction, Mode, Predicate,
};
use vstd::prelude::*;

verus! {

/// The verified members, in the order of the snapshot, each with its name
/// and its address.
pub fn get_all_users(users: &Vec<users::Model>) -> (r: UsersResponse)
    ensures
        r.users@.len() == candidates(users@, Predicate::Verified).len(),
        forall|x: int|
            0 <= x < r.users@.len() ==> {
                let member = users@[candidates(users@, Predicate::Verified)[x]];
                (#[trigger] r.users@[x]).username@ == member.username@ && r.users@[x].url@ == member.url@
            },
{
    let verified = scope_positions(users, Predicate::Verified);
    proof {
        crate::ring::positions_are_the_scope(users@, Predicate::Verified, users@.len() as int);
    }
    let mut listed: Vec<Serializeableuser> = Vec::new();
    let mut x: usize = 0;
    while x < verified.len()
        invariant
            x <= verified.len(),
            verified@.len() == candidates(users@, Predicate::Verified).len(),
            forall|y: int|
                0 <= y < verified@.len() ==> verified@[y] as int == candidates(users@, Predicate::Verified)[y],
            forall|y: int|
                0 <= y < verified@.len() ==> 0 <= #[trigger] candidates(users@, Predicate::Verified)[y]
                    < users@.len(),
            listed@.len() == x,
            forall|y: int|
                0 <= y < x ==> {
                    let member = users@[candidates(users@, Predicate::Verified)[y]];
                    (#[trigger] listed@[y]).username@ == member.username@ && listed@[y].url@ == member.url@
                },
        decreases verified.len() - x,
    {
        let member = &users[verified[x]];
        listed.push(Serializeableuser { username: member.username.clone(), url: member.url.clone() });
        x += 1;
    }
    UsersResponse { users: listed }
}

/// A verified member picked afresh, or `None` where no member is verified.
pub fn get_random_user<'a>(users: &'a Vec<users::Model>) -> (r: Option<&'a users::Model>)
    ensures
        match r {
            Some(member) => exists|j: int| #[trigger]
                in_scope(users@, Predicate::Verified, j) && *member == users@[j],
            None => forall|i: int| !in_scope(users@, Predicate::Verified, i),
        },
{
    select_random(users, Predicate::Verified, Mode::Uniform)
}

/// The member called `username`, verified or not.
pub fn get_user<'a>(users: &'a Vec<users::Model>, username: &str) -> (r: Option<&'a users::Model>)
    ensures
        match r {
            Some(member) => exists|c: int| #[trigger]
                is_current(users@, Predicate::Any, username@, c) && *member == users@[c],
            None => forall|i: int| !named(users@, Predicate::Any, username@, i),
        },
{
    match find_current(users, Predicate::Any, username) {
        Some(c) => {
            assert(is_current(users@, Predicate::Any, username@, c as int));
            Some(&users[c])
        },
        None => None,
    }
}

/// The member after the one called `username`, among all members.
pub fn get_user_next<'a>(users: &'a Vec<users::Model>, username: &str) -> (r: Option<&'a users::Model>)
    ensures
        match r {
            Some(member) => exists|j: int| #[trigger]
                located(users@, Predicate::Any, username@, Direction::Next, j) && *member == users@[j],
            None => forall|i: int| !named(users@, Predicate::Any, username@, i),
        },
{
    locate_neighbor(users, Predicate::Any, username, Direction::Next)
}

/// The member before the one called `username`, among the verified
/// members.
pub fn get_user_prev<'a>(users: &'a Vec<users::Model>, username: &str) -> (r: Option<&'a users::Model>)
    ensures
        match r {
            Some(member) => exists|j: int| #[trigger]
                located(users@, Predicate::Verified, username@, Direction::Prev, j) && *member == users@[j],
            None => forall|i: int| !named(users@, Predicate::Verified, username@, i),
        },
{
    locate_neighbor(users, Predicate::Verified, username, Direction::Prev)
}

/// The verified member that the seeded pick for the verified member called
/// `username` falls on: always the same one while the verified members stay
/// the same.
pub fn get_user_random<'a>(users: &'a Vec<users::Model>, username: &str) -> (r: Option<&'a users::Model>)
    ensures
        r is None <==> forall|i: int| !named(users@, Predicate::Verified, username@, i),
        r matches Some(member) ==> exists|j: int| #[trigger]
            in_scope(users@, Predicate::Verified, j) && *member == users@[j],
        forall|c: int|
            is_current(users@, Predicate::Verified, username@, c) ==> match seeded_selection(
                users@,
                Predicate::Verified,
                users@[c].id,
            ) {
                Some(j) => r == Some(&users@[j]),
                None => r is None,
            },
{
    match find_current(users, Predicate::Verified, username) {
        Some(current) => {
            proof {
                assert forall|c: int| is_current(users@, Predicate::Verified, username@, c) implies c
                    == current by {
                    crate::ring::current_is_unique(users@, Predicate::Verified, username@, c, current as int);
                }
                assert(named(users@, Predicate::Verified, username@, current as int));
                assert(in_scope(users@, Predicate::Verified, current as int));
                assert(crate::ring::holds_id(users@, users@[current as int].id as int));
                crate::ring::seeded_selection_takes_part(users@, Predicate::Verified, users@[current as int].id);
            }
            select_random(users, Predicate::Verified, Mode::Seeded(users[current].id))
        },
        None => {
            assert forall|c: int| !is_current(users@, Predicate::Verified, username@, c) by {
                assert(!named(users@, Predicate::Verified, username@, c));
            }
            None
        },
    }
}

/// A verified advertisement picked afresh, or `None` where none is
/// verified.
pub fn get_random_ad(ads: &Vec<ads::Model>) -> (r: Option<PublicAdResponse>)
    ensures
        match r {
            Some(shown) => exists|j: int| #[trigger]
                in_scope(ads@, Predicate::Verified, j) && shown.username@ == ads@[j].username@
                    && shown.image_url@ == ads@[j].image_url@ && shown.ad_url@ == ads@[j].ad_url@,
            None => forall|i: int| !in_scope(ads@, Predicate::Verified, i),
        },
{
    match crate::ring::select_random_index(ads, Predicate::Verified, Mode::Uniform) {
        Some(j) => {
            assert(in_scope(ads@, Predicate::Verified, j as int));
            let ad = &ads[j];
            Some(
                PublicAdResponse {
                    username: ad.username.clone(),
                    image_url: ad.image_url.clone(),
                    ad_url: ad.ad_url.clone(),
                },
            )
        },
        None => None,
    }
}

} // verus!
