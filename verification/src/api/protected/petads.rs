//! The management of advertisements.
//!
//! Each function looks at one snapshot of the store and says what is to be
//! answered, and which record is to be written or removed. Writing and
//! removing are left to the caller.

use crate::api::lookup::{
    by_discord_id, by_username, find_by_discord_id, find_by_username, has_discord_id, holds_positions,
    pick, picked,
};
use crate::api::protected::{ad_sites, barred_ad_sites, is_screened_out, screen};
use crate::api::{
    shown_ad, shown_id, stored_id, to_shown_id, to_stored_id, AdEditRequest, AdResponse, AdResponseView,
    AdSubmission, BulkAdDeleteResponse, BulkUserDeleteRequest, Refusal,
};
use crate::database::ads::{Model, ModelView};
use crate::database::users;
use crate::text::chars_of;
use vstd::prelude::*;

verus! {

/// The value of an answer that shows an advertisement.
pub open spec fn ad_answer(r: Result<AdResponse, Refusal>) -> Result<AdResponseView, Refusal> {
    match r {
        Ok(response) => Ok(response@),
        Err(refusal) => Err(refusal),
    }
}

/// How an advertisement that `user` has just placed at the time `now` is
/// shown: it leads to the member's site, is not verified and was never
/// edited.
pub open spec fn shown_placement(user: users::Model, submission: AdSubmission, now: Seq<char>) -> AdResponseView {
    AdResponseView {
        username: user.username@,
        discord_id: submission.discord_id,
        image_url: submission.image_url@,
        ad_url: user.url@,
        verified: false,
        created_at: now,
        edited_at: Seq::empty(),
        verified_at: Seq::empty(),
    }
}

/// The request of an advertisement, at the time `now`. Only a verified
/// member may place one, and one only; the address of the picture is
/// screened, and turned down too where it has no `/` in it. The store is to take in a record as the answer shows it.
pub fn post_ad_submit(users: &Vec<users::Model>, ads: &Vec<Model>, submission: &AdSubmission, now: &str) -> (r:
    Result<AdResponse, Refusal>)
    requires
        now@.len() > 0,
    ensures
        ad_answer(r) == match by_discord_id(users@, stored_id(submission.discord_id)) {
            None => Err::<AdResponseView, Refusal>(Refusal::NotFound),
            Some(i) => if !users@[i].verified {
                Err(Refusal::NotVerified)
            } else if by_discord_id(ads@, stored_id(submission.discord_id)) is Some {
                Err(Refusal::Conflict)
            } else if is_screened_out(submission.image_url@, barred_ad_sites()) {
                Err(Refusal::InvalidUrl)
            } else {
                Ok(shown_placement(users@[i], *submission, now@))
            },
        },
{
    let owner = to_stored_id(submission.discord_id);
    let user = match find_by_discord_id(users, owner) {
        None => { return Err(Refusal::NotFound); },
        Some(i) => &users[i],
    };
    if !user.verified {
        return Err(Refusal::NotVerified);
    }
    if find_by_discord_id(ads, owner).is_some() {
        return Err(Refusal::Conflict);
    }
    let sites = ad_sites();
    if screen(submission.image_url.as_str(), &sites) {
        return Err(Refusal::InvalidUrl);
    }
    Ok(
        AdResponse {
            username: user.username.clone(),
            discord_id: submission.discord_id,
            image_url: submission.image_url.clone(),
            ad_url: user.url.clone(),
            verified: false,
            created_at: now.to_owned(),
            edited_at: String::new(),
            verified_at: String::new(),
        },
    )
}

/// The verification of the advertisement of the principal `discord_id` at
/// the time `now`: the answer shows it as verified at `now`. The store is to
/// mark every advertisement of that principal in the same way. A time is
/// written with one character at least; empty text stands for "not yet".
pub fn put_ad_verify(ads: &Vec<Model>, discord_id: u64, now: &str) -> (r: Result<AdResponse, Refusal>)
    requires
        now@.len() > 0,
    ensures
        r matches Ok(response) ==> response.verified && response.verified_at@.len() > 0,
        ad_answer(r) == match by_discord_id(ads@, stored_id(discord_id)) {
            None => Err::<AdResponseView, Refusal>(Refusal::NotFound),
            Some(i) => Ok(AdResponseView { verified: true, verified_at: now@, ..shown_ad(ads@[i]) }),
        },
{
    match find_by_discord_id(ads, to_stored_id(discord_id)) {
        None => Err(Refusal::NotFound),
        Some(i) => {
            let mut response = AdResponse::of(&ads[i]);
            response.verified = true;
            response.verified_at = now.to_owned();
            Ok(response)
        },
    }
}

/// An advertisement marked as verified at a time that is written with one
/// character at least is sound, whatever it was before.
pub proof fn verification_is_sound(ad: ModelView, now: Seq<char>)
    requires
        now.len() > 0,
    ensures
        (ModelView { verified: true, verified_at: now, ..ad }).sound(),
{
}

/// Position `i` holds a verified advertisement of the principal with the
/// stored identifier `discord_id`.
pub open spec fn is_verified_ad_of(ads: Seq<Model>, discord_id: i64, i: int) -> bool {
    has_discord_id(ads, discord_id, i) && ads[i].verified
}

/// Position `i` holds the first verified advertisement of that principal.
pub open spec fn first_verified_ad_of(ads: Seq<Model>, discord_id: i64, i: int) -> bool {
    is_verified_ad_of(ads, discord_id, i) && forall|k: int| 0 <= k < i ==> !is_verified_ad_of(ads, discord_id, k)
}

/// The position of the first verified advertisement of that principal.
pub open spec fn verified_ad_of(ads: Seq<Model>, discord_id: i64) -> Option<int> {
    if exists|i: int| first_verified_ad_of(ads, discord_id, i) {
        Some(choose|i: int| first_verified_ad_of(ads, discord_id, i))
    } else {
        None
    }
}

/// Looks for the first verified advertisement of the principal with the
/// stored identifier `discord_id`.
pub fn find_verified_ad(ads: &Vec<Model>, discord_id: i64) -> (r: Option<usize>)
    ensures
        crate::api::lookup::found(r) == verified_ad_of(ads@, discord_id),
        r matches Some(i) ==> first_verified_ad_of(ads@, discord_id, i as int),
{
    let mut i: usize = 0;
    while i < ads.len()
        invariant
            i <= ads.len(),
            forall|k: int| 0 <= k < i ==> !is_verified_ad_of(ads@, discord_id, k),
        decreases ads.len() - i,
    {
        if ads[i].discord_id == discord_id && ads[i].verified {
            proof {
                assert(first_verified_ad_of(ads@, discord_id, i as int));
                let j = choose|j: int| first_verified_ad_of(ads@, discord_id, j);
                if j < i {
                    assert(!is_verified_ad_of(ads@, discord_id, j));
                }
                if i < j {
                    assert(is_verified_ad_of(ads@, discord_id, i as int));
                }
            }
            return Some(i);
        }
        i += 1;
    }
    assert forall|j: int| !first_verified_ad_of(ads@, discord_id, j) by {
        assert(!is_verified_ad_of(ads@, discord_id, j));
    }
    None
}

/// An advertisement to write back to the store, with the answer once that
/// is done.
#[derive(Debug, Clone, PartialEq)]
pub struct Revision {
    /// The record as it is to stand.
    pub record: Model,
    pub response: AdResponse,
}

/// What giving `ad` the picture at `url` at the time `now` amounts to: the
/// record gets the address and the time of the edit, and the answer shows
/// it so.
pub open spec fn revises(revision: Revision, ad: Model, url: Seq<char>, now: Seq<char>) -> bool {
    &&& revision.record@ == (ModelView { image_url: url, edited_at: now, ..ad@ })
    &&& revision.response@ == (AdResponseView { image_url: url, edited_at: now, ..shown_ad(ad) })
}

/// An edit leaves a sound record sound.
pub proof fn edit_keeps_sound(revision: Revision, ad: Model, url: Seq<char>, now: Seq<char>)
    requires
        revises(revision, ad, url, now),
        ad@.sound(),
    ensures
        revision.record@.sound(),
{
}

/// The edit of the verified advertisement of the principal
/// `edit.discord_id` at the time `now`. An edit that names no address
/// changes nothing. A new address is screened, and turned down too where
/// it has no `/` in it; an address that stays is not screened.
pub fn put_ad_edit(ads: &Vec<Model>, edit: &AdEditRequest, now: &str) -> (r: Result<Revision, Refusal>)
    requires
        now@.len() > 0,
    ensures
        match verified_ad_of(ads@, stored_id(edit.discord_id)) {
            None => r == Err::<Revision, Refusal>(Refusal::NotFound),
            Some(i) => match edit.url {
                None => r == Err::<Revision, Refusal>(Refusal::NotModified),
                Some(url) => if url@ != ads@[i].image_url@ && is_screened_out(url@, barred_ad_sites()) {
                    r == Err::<Revision, Refusal>(Refusal::InvalidUrl)
                } else {
                    r matches Ok(revision) && revises(revision, ads@[i], url@, now@)
                },
            },
        },
{
    let i = match find_verified_ad(ads, to_stored_id(edit.discord_id)) {
        None => { return Err(Refusal::NotFound); },
        Some(i) => i,
    };
    let ad = &ads[i];
    let url = match &edit.url {
        Some(url) => url.clone(),
        None => { return Err(Refusal::NotModified); },
    };
    if url != ad.image_url {
        let sites = ad_sites();
        if screen(url.as_str(), &sites) {
            return Err(Refusal::InvalidUrl);
        }
    }
    let mut response = AdResponse::of(ad);
    response.image_url = url.clone();
    response.edited_at = now.to_owned();
    let record = Model {
        id: ad.id,
        username: ad.username.clone(),
        discord_id: ad.discord_id,
        image_url: url,
        ad_url: ad.ad_url.clone(),
        verified: ad.verified,
        created_at: ad.created_at.clone(),
        edited_at: now.to_owned(),
        verified_at: ad.verified_at.clone(),
    };
    Ok(Revision { record, response })
}

/// An advertisement to remove from the store, with the answer once that is
/// done.
#[derive(Debug, Clone, PartialEq, Eq)]
pub struct Removal {
    /// The identifier of the record to remove.
    pub id: i32,
    pub response: AdResponse,
}

/// What removing the advertisement at position `i` amounts to.
pub open spec fn removes(removal: Removal, ads: Seq<Model>, i: int) -> bool {
    removal.id == ads[i].id && removal.response@ == shown_ad(ads[i])
}

/// The removal of the advertisement of the principal `discord_id`.
pub fn delete_ad_by_discord_id(ads: &Vec<Model>, discord_id: u64) -> (r: Result<Removal, Refusal>)
    ensures
        match by_discord_id(ads@, stored_id(discord_id)) {
            None => r == Err::<Removal, Refusal>(Refusal::NotFound),
            Some(i) => r matches Ok(removal) && removes(removal, ads@, i),
        },
{
    match find_by_discord_id(ads, to_stored_id(discord_id)) {
        None => Err(Refusal::NotFound),
        Some(i) => Ok(Removal { id: ads[i].id, response: AdResponse::of(&ads[i]) }),
    }
}

/// The removal of the advertisement of the member called `username`.
pub fn delete_ad_by_username(ads: &Vec<Model>, username: &str) -> (r: Result<Removal, Refusal>)
    ensures
        match by_username(ads@, username@) {
            None => r == Err::<Removal, Refusal>(Refusal::NotFound),
            Some(i) => r matches Ok(removal) && removes(removal, ads@, i),
        },
{
    let name = chars_of(username);
    match find_by_username(ads, &name) {
        None => Err(Refusal::NotFound),
        Some(i) => Ok(Removal { id: ads[i].id, response: AdResponse::of(&ads[i]) }),
    }
}

/// The advertisements to remove from the store, with the answer once that
/// is done.
#[derive(Debug, Clone, PartialEq, Eq)]
pub struct BulkRemoval {
    /// The identifiers of the records to remove.
    pub ids: Vec<i32>,
    pub response: BulkAdDeleteResponse,
}

/// What removing the advertisements at `positions` amounts to: the
/// identifiers, the principals, the names and the pictures of those
/// advertisements, in that order.
pub open spec fn removes_all(removal: BulkRemoval, ads: Seq<Model>, positions: Seq<int>) -> bool {
    &&& removal.response.message@ == "Ads deleted"@
    &&& removal.ids@.len() == positions.len()
    &&& removal.response.discord_ids@.len() == positions.len()
    &&& removal.response.usernames@.len() == positions.len()
    &&& removal.response.image_urls@.len() == positions.len()
    &&& forall|k: int|
        0 <= k < positions.len() ==> {
            &&& #[trigger] removal.ids@[k] == ads[positions[k]].id
            &&& removal.response.discord_ids@[k] == shown_id(ads[positions[k]].discord_id)
            &&& removal.response.usernames@[k]@ == ads[positions[k]].username@
            &&& removal.response.image_urls@[k]@ == ads[positions[k]].image_url@
        }
}

/// The removal of several advertisements at once: those of the principals
/// in the request, then those of the names in it that have not come before.
/// Nothing is removed where a principal or a name finds no advertisement.
pub fn bulk_delete_ads(ads: &Vec<Model>, request: &BulkUserDeleteRequest) -> (r: Result<BulkRemoval, Refusal>)
    ensures
        match picked(ads@, request.discord_ids, request.usernames) {
            None => r == Err::<BulkRemoval, Refusal>(Refusal::NotFound),
            Some(positions) => r matches Ok(removal) && removes_all(removal, ads@, positions),
        },
{
    let list = match pick(ads, &request.discord_ids, &request.usernames) {
        Some(list) => list,
        None => { return Err(Refusal::NotFound); },
    };
    let ghost positions = picked(ads@, request.discord_ids, request.usernames)->Some_0;
    let mut ids: Vec<i32> = Vec::new();
    let mut discord_ids: Vec<u64> = Vec::new();
    let mut usernames: Vec<String> = Vec::new();
    let mut image_urls: Vec<String> = Vec::new();
    let mut k: usize = 0;
    while k < list.len()
        invariant
            k <= list.len(),
            holds_positions(list@, positions),
            forall|x: int| 0 <= x < list@.len() ==> #[trigger] list@[x] < ads@.len(),
            ids@.len() == k,
            discord_ids@.len() == k,
            usernames@.len() == k,
            image_urls@.len() == k,
            forall|x: int|
                0 <= x < k ==> {
                    &&& #[trigger] ids@[x] == ads@[positions[x]].id
                    &&& discord_ids@[x] == shown_id(ads@[positions[x]].discord_id)
                    &&& usernames@[x]@ == ads@[positions[x]].username@
                    &&& image_urls@[x]@ == ads@[positions[x]].image_url@
                },
        decreases list.len() - k,
    {
        let ad = &ads[list[k]];
        ids.push(ad.id);
        discord_ids.push(to_shown_id(ad.discord_id));
        usernames.push(ad.username.clone());
        image_urls.push(ad.image_url.clone());
        k += 1;
    }
    Ok(
        BulkRemoval {
            ids,
            response: BulkAdDeleteResponse {
                message: "Ads deleted".to_owned(),
                discord_ids,
                usernames,
                image_urls,
            },
        },
    )
}

} // verus!
