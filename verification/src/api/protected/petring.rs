//! The management of members.
//!
//! Each function looks at one snapshot of the members and says what is to
//! be answered, and which record is to be written or removed. Writing and
//! removing are left to the caller.

use crate::api::protected::{barred_user_sites, is_screened_out, screen, user_sites};
use crate::api::{
    shown_id, shown_user, stored_id, to_shown_id, to_stored_id, BulkUserDeleteRequest,
    BulkUserDeleteResponse, EditUserResponse, Refusal, UserEdit, UserResponse, UserResponseView,
    UserSubmission,
};
use crate::api::lookup::{
    by_discord_id, by_username, find_by_discord_id, find_by_username, has_discord_id, has_username,
    holds_positions, pick, picked,
};
use crate::database::users::{Model, ModelView};
use crate::text::chars_of;
use vstd::prelude::*;

verus! {

/// The value of an answer that shows a member.
pub open spec fn user_answer(r: Result<UserResponse, Refusal>) -> Result<UserResponseView, Refusal> {
    match r {
        Ok(response) => Ok(response@),
        Err(refusal) => Err(refusal),
    }
}

/// The verified member of the principal `discord_id`.
pub fn get_user_by_discord_id(users: &Vec<Model>, discord_id: u64) -> (r: Result<UserResponse, Refusal>)
    ensures
        user_answer(r) == match by_discord_id(users@, stored_id(discord_id)) {
            None => Err::<UserResponseView, Refusal>(Refusal::NotFound),
            Some(i) => if users@[i].verified {
                Ok(shown_user(users@[i]))
            } else {
                Err(Refusal::NotVerified)
            },
        },
{
    match find_by_discord_id(users, to_stored_id(discord_id)) {
        None => Err(Refusal::NotFound),
        Some(i) => {
            if !users[i].verified {
                return Err(Refusal::NotVerified);
            }
            Ok(UserResponse::of(&users[i]))
        },
    }
}

/// The member of the principal `discord_id`, verified or not. The answer
/// shows every member as not verified.
pub fn get_user_by_discord_id_unverified(users: &Vec<Model>, discord_id: u64) -> (r: Result<
    UserResponse,
    Refusal,
>)
    ensures
        user_answer(r) == match by_discord_id(users@, stored_id(discord_id)) {
            None => Err::<UserResponseView, Refusal>(Refusal::NotFound),
            Some(i) => Ok(UserResponseView { verified: false, ..shown_user(users@[i]) }),
        },
{
    match find_by_discord_id(users, to_stored_id(discord_id)) {
        None => Err(Refusal::NotFound),
        Some(i) => {
            let mut response = UserResponse::of(&users[i]);
            response.verified = false;
            Ok(response)
        },
    }
}

/// A member to remove from the store, with the answer once that is done.
#[derive(Debug, Clone, PartialEq, Eq)]
pub struct Removal {
    /// The identifier of the record to remove.
    pub id: i32,
    pub response: UserResponse,
}

/// What removing the member at position `i` amounts to.
pub open spec fn removes(removal: Removal, users: Seq<Model>, i: int) -> bool {
    removal.id == users[i].id && removal.response@ == shown_user(users[i])
}

/// The removal of the member called `username`.
pub fn delete_user_by_username(users: &Vec<Model>, username: &str) -> (r: Result<Removal, Refusal>)
    ensures
        match by_username(users@, username@) {
            None => r == Err::<Removal, Refusal>(Refusal::NotFound),
            Some(i) => r matches Ok(removal) && removes(removal, users@, i),
        },
{
    let name = chars_of(username);
    match find_by_username(users, &name) {
        None => Err(Refusal::NotFound),
        Some(i) => Ok(Removal { id: users[i].id, response: UserResponse::of(&users[i]) }),
    }
}

/// The removal of the member of the principal `discord_id`.
pub fn delete_user_by_discord_id(users: &Vec<Model>, discord_id: u64) -> (r: Result<Removal, Refusal>)
    ensures
        match by_discord_id(users@, stored_id(discord_id)) {
            None => r == Err::<Removal, Refusal>(Refusal::NotFound),
            Some(i) => r matches Ok(removal) && removes(removal, users@, i),
        },
{
    match find_by_discord_id(users, to_stored_id(discord_id)) {
        None => Err(Refusal::NotFound),
        Some(i) => Ok(Removal { id: users[i].id, response: UserResponse::of(&users[i]) }),
    }
}

/// The verification of the member of the principal `discord_id` at the
/// time `now`: the answer shows the member as verified at `now`. The store
/// is to mark every record of that principal in the same way. A time is
/// written with one character at least; empty text stands for "not yet".
pub fn put_user_verify(users: &Vec<Model>, discord_id: u64, now: &str) -> (r: Result<UserResponse, Refusal>)
    requires
        now@.len() > 0,
    ensures
        r matches Ok(response) ==> response.verified && response.verified_at@.len() > 0,
        user_answer(r) == match by_discord_id(users@, stored_id(discord_id)) {
            None => Err::<UserResponseView, Refusal>(Refusal::NotFound),
            Some(i) => Ok(UserResponseView { verified: true, verified_at: now@, ..shown_user(users@[i]) }),
        },
{
    match find_by_discord_id(users, to_stored_id(discord_id)) {
        None => Err(Refusal::NotFound),
        Some(i) => {
            let mut response = UserResponse::of(&users[i]);
            response.verified = true;
            response.verified_at = now.to_owned();
            Ok(response)
        },
    }
}

/// A record marked as verified at a time that is written with one
/// character at least is sound, whatever it was before.
pub proof fn verification_is_sound(user: ModelView, now: Seq<char>)
    requires
        now.len() > 0,
    ensures
        (ModelView { verified: true, verified_at: now, ..user }).sound(),
{
}

/// How a member that has just been taken in at the time `now` is shown: not
/// verified, never edited.
pub open spec fn shown_submission(submission: UserSubmission, now: Seq<char>) -> UserResponseView {
    UserResponseView {
        username: submission.username@,
        discord_id: submission.discord_id,
        url: submission.url@,
        verified: false,
        created_at: now,
        edited_at: Seq::empty(),
        verified_at: Seq::empty(),
    }
}

/// Whether `submission` may join: no member has its name, and no member
/// belongs to its principal.
pub open spec fn may_join(users: Seq<Model>, submission: UserSubmission) -> bool {
    by_username(users, submission.username@) is None && by_discord_id(
        users,
        stored_id(submission.discord_id),
    ) is None
}

/// The request of a new member, at the time `now`. The store is to take in
/// a record with the name, the address and the principal of the submission,
/// not verified, created at `now`.
pub fn post_user_submit(users: &Vec<Model>, submission: &UserSubmission, now: &str) -> (r: Result<
    UserResponse,
    Refusal,
>)
    requires
        now@.len() > 0,
    ensures
        user_answer(r) == if may_join(users@, *submission) {
            Ok::<UserResponseView, Refusal>(shown_submission(*submission, now@))
        } else {
            Err(Refusal::Conflict)
        },
        r is Ok <==> forall|i: int|
            !has_username(users@, submission.username@, i) && !has_discord_id(
                users@,
                stored_id(submission.discord_id),
                i,
            ),
{
    let name = chars_of(submission.username.as_str());
    if find_by_username(users, &name).is_some() {
        return Err(Refusal::Conflict);
    }
    if find_by_discord_id(users, to_stored_id(submission.discord_id)).is_some() {
        return Err(Refusal::Conflict);
    }
    Ok(
        UserResponse {
            username: submission.username.clone(),
            discord_id: submission.discord_id,
            url: submission.url.clone(),
            verified: false,
            created_at: now.to_owned(),
            edited_at: String::new(),
            verified_at: String::new(),
        },
    )
}

/// A member that joins leaves the names and the principals of the store
/// without a double: none of the members has its name or its principal.
pub proof fn joining_keeps_members_apart(users: Seq<Model>, submission: UserSubmission, i: int)
    requires
        may_join(users, submission),
        0 <= i < users.len(),
    ensures
        users[i].username@ != submission.username@,
        users[i].discord_id != stored_id(submission.discord_id),
{
    crate::api::lookup::nothing_by_username(users, submission.username@);
    crate::api::lookup::nothing_by_discord_id(users, stored_id(submission.discord_id));
    assert(!has_username(users, submission.username@, i));
    assert(!has_discord_id(users, stored_id(submission.discord_id), i));
}

/// A member to write back to the store, with the answer once that is done.
#[derive(Debug, Clone, PartialEq)]
pub struct Revision {
    /// The record as it is to stand.
    pub record: Model,
    pub response: EditUserResponse,
}

/// The name that an edit leaves a member with.
pub open spec fn edited_name(user: Model, edit: UserEdit) -> Seq<char> {
    match edit.username {
        Some(name) => name@,
        None => user.username@,
    }
}

/// The address that an edit leaves a member with.
pub open spec fn edited_url(user: Model, edit: UserEdit) -> Seq<char> {
    match edit.url {
        Some(url) => url@,
        None => user.url@,
    }
}

/// Whether an edit gives a member another address than it has.
pub open spec fn moves(user: Model, edit: UserEdit) -> bool {
    edit.url is Some && edited_url(user, edit) != user.url@
}

/// What editing `user` at the time `now` amounts to: the record gets the
/// new name and address and the time of the edit, and the answer shows it
/// before and after. The answer shows the edited member as verified.
pub open spec fn revises(revision: Revision, user: Model, edit: UserEdit, now: Seq<char>) -> bool {
    &&& revision.record@ == (ModelView {
        username: edited_name(user, edit),
        url: edited_url(user, edit),
        edited_at: now,
        ..user@
    })
    &&& revision.response.old@ == shown_user(user)
    &&& revision.response.new@ == (UserResponseView {
        username: edited_name(user, edit),
        url: edited_url(user, edit),
        verified: true,
        edited_at: now,
        ..shown_user(user)
    })
}

/// An edit leaves a sound record sound.
pub proof fn edit_keeps_sound(revision: Revision, user: Model, edit: UserEdit, now: Seq<char>)
    requires
        revises(revision, user, edit, now),
        user@.sound(),
    ensures
        revision.record@.sound(),
{
}

/// The edit of the member of the principal `edit.discord_id` at the time
/// `now`. An edit that names neither a name nor an address changes nothing.
/// A new address is screened, and turned down too where it has no `/` in
/// it; an address that stays is not screened.
pub fn put_user_edit(users: &Vec<Model>, edit: &UserEdit, now: &str) -> (r: Result<Revision, Refusal>)
    requires
        now@.len() > 0,
    ensures
        match by_discord_id(users@, stored_id(edit.discord_id)) {
            None => r == Err::<Revision, Refusal>(Refusal::NotFound),
            Some(i) => if edit.username is None && edit.url is None {
                r == Err::<Revision, Refusal>(Refusal::NotModified)
            } else if moves(users@[i], *edit) && is_screened_out(
                edited_url(users@[i], *edit),
                barred_user_sites(),
            ) {
                r == Err::<Revision, Refusal>(Refusal::InvalidUrl)
            } else {
                r matches Ok(revision) && revises(revision, users@[i], *edit, now@)
            },
        },
{
    let i = match find_by_discord_id(users, to_stored_id(edit.discord_id)) {
        None => { return Err(Refusal::NotFound); },
        Some(i) => i,
    };
    let user = &users[i];
    if edit.username.is_none() && edit.url.is_none() {
        return Err(Refusal::NotModified);
    }
    let username = match &edit.username {
        Some(name) => name.clone(),
        None => user.username.clone(),
    };
    let url = match &edit.url {
        Some(url) => url.clone(),
        None => user.url.clone(),
    };
    if edit.url.is_some() && url != user.url {
        let sites = user_sites();
        if screen(url.as_str(), &sites) {
            return Err(Refusal::InvalidUrl);
        }
    }
    let old = UserResponse::of(user);
    let new = UserResponse {
        username: username.clone(),
        url: url.clone(),
        discord_id: to_shown_id(user.discord_id),
        verified: true,
        created_at: user.created_at.clone(),
        edited_at: now.to_owned(),
        verified_at: user.verified_at.clone(),
    };
    let record = Model {
        id: user.id,
        username,
        discord_id: user.discord_id,
        url,
        verified: user.verified,
        created_at: user.created_at.clone(),
        edited_at: now.to_owned(),
        verified_at: user.verified_at.clone(),
    };
    Ok(Revision { record, response: EditUserResponse { old, new } })
}

/// The members to remove from the store, with the answer once that is
/// done.
#[derive(Debug, Clone, PartialEq, Eq)]
pub struct BulkRemoval {
    /// The identifiers of the records to remove.
    pub ids: Vec<i32>,
    pub response: BulkUserDeleteResponse,
}

/// What removing the members at `positions` amounts to: the identifiers,
/// the principals and the names of those members, in that order.
pub open spec fn removes_all(removal: BulkRemoval, users: Seq<Model>, positions: Seq<int>) -> bool {
    &&& removal.response.message@ == "Users deleted"@
    &&& removal.ids@.len() == positions.len()
    &&& removal.response.discord_ids@.len() == positions.len()
    &&& removal.response.usernames@.len() == positions.len()
    &&& forall|k: int|
        0 <= k < positions.len() ==> {
            &&& #[trigger] removal.ids@[k] == users[positions[k]].id
            &&& removal.response.discord_ids@[k] == shown_id(users[positions[k]].discord_id)
            &&& removal.response.usernames@[k]@ == users[positions[k]].username@
        }
}

/// The removal of several members at once: those of the principals in the
/// request, then those of the names in it that have not come before.
/// Nothing is removed where a principal or a name finds no member.
pub fn bulk_delete_users(users: &Vec<Model>, request: &BulkUserDeleteRequest) -> (r: Result<
    BulkRemoval,
    Refusal,
>)
    ensures
        match picked(users@, request.discord_ids, request.usernames) {
            None => r == Err::<BulkRemoval, Refusal>(Refusal::NotFound),
            Some(positions) => r matches Ok(removal) && removes_all(removal, users@, positions),
        },
{
    let list = match pick(users, &request.discord_ids, &request.usernames) {
        Some(list) => list,
        None => { return Err(Refusal::NotFound); },
    };
    let ghost positions = picked(users@, request.discord_ids, request.usernames)->Some_0;
    let mut ids: Vec<i32> = Vec::new();
    let mut discord_ids: Vec<u64> = Vec::new();
    let mut usernames: Vec<String> = Vec::new();
    let mut k: usize = 0;
    while k < list.len()
        invariant
            k <= list.len(),
            holds_positions(list@, positions),
            forall|x: int| 0 <= x < list@.len() ==> #[trigger] list@[x] < users@.len(),
            ids@.len() == k,
            discord_ids@.len() == k,
            usernames@.len() == k,
            forall|x: int|
                0 <= x < k ==> {
                    &&& #[trigger] ids@[x] == users@[positions[x]].id
                    &&& discord_ids@[x] == shown_id(users@[positions[x]].discord_id)
                    &&& usernames@[x]@ == users@[positions[x]].username@
                },
        decreases list.len() - k,
    {
        let user = &users[list[k]];
        ids.push(user.id);
        discord_ids.push(to_shown_id(user.discord_id));
        usernames.push(user.username.clone());
        k += 1;
    }
    Ok(
        BulkRemoval {
            ids,
            response: BulkUserDeleteResponse { message: "Users deleted".to_owned(), discord_ids, usernames },
        },
    )
}

} // verus!
