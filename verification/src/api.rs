//! What the endpoints of the API server decide, from one snapshot of the
//! store to the record or the answer that goes out.

use crate::database::ads;
use crate::database::users;
use vstd::prelude::*;

pub mod lookup;
pub mod protected;
pub mod public;

verus! {

/// Why a request is turned down.
#[derive(Debug, Clone, Copy, PartialEq, Eq, Structural)]
pub enum Refusal {
    /// The store holds no such record.
    NotFound,
    /// The member has not been verified.
    NotVerified,
    /// The store holds such a record already.
    Conflict,
    /// The address is on a site that is not accepted.
    InvalidUrl,
    /// The request changes nothing.
    NotModified,
}

/// The identifier of a principal as the store keeps it: the same 64 bits,
/// read with a sign.
pub open spec fn stored_id(discord_id: u64) -> i64 {
    discord_id as i64
}

/// The identifier of a principal as requests and answers carry it: the same
/// 64 bits, read without a sign.
pub open spec fn shown_id(discord_id: i64) -> u64 {
    discord_id as u64
}

/// Computes [`stored_id`].
pub fn to_stored_id(discord_id: u64) -> (r: i64)
    ensures
        r == stored_id(discord_id),
{
    #[verifier::truncate]
    (discord_id as i64)
}

/// Computes [`shown_id`].
pub fn to_shown_id(discord_id: i64) -> (r: u64)
    ensures
        r == shown_id(discord_id),
{
    #[verifier::truncate]
    (discord_id as u64)
}

/// A member as the bot sees it.
#[derive(Debug, Clone, PartialEq, Eq)]
pub struct UserResponse {
    pub username: String,
    pub discord_id: u64,
    pub url: String,
    pub verified: bool,
    pub created_at: String,
    pub edited_at: String,
    pub verified_at: String,
}

/// The mathematical value of a [`UserResponse`].
pub struct UserResponseView {
    pub username: Seq<char>,
    pub discord_id: u64,
    pub url: Seq<char>,
    pub verified: bool,
    pub created_at: Seq<char>,
    pub edited_at: Seq<char>,
    pub verified_at: Seq<char>,
}

impl View for UserResponse {
    type V = UserResponseView;

    open spec fn view(&self) -> UserResponseView {
        UserResponseView {
            username: self.username@,
            discord_id: self.discord_id,
            url: self.url@,
            verified: self.verified,
            created_at: self.created_at@,
            edited_at: self.edited_at@,
            verified_at: self.verified_at@,
        }
    }
}

/// How the record `user` is shown.
pub open spec fn shown_user(user: users::Model) -> UserResponseView {
    UserResponseView {
        username: user.username@,
        discord_id: shown_id(user.discord_id),
        url: user.url@,
        verified: user.verified,
        created_at: user.created_at@,
        edited_at: user.edited_at@,
        verified_at: user.verified_at@,
    }
}

impl UserResponse {
    /// Shows the record `user`.
    pub fn of(user: &users::Model) -> (r: UserResponse)
        ensures
            r@ == shown_user(*user),
    {
        UserResponse {
            username: user.username.clone(),
            discord_id: to_shown_id(user.discord_id),
            url: user.url.clone(),
            verified: user.verified,
            created_at: user.created_at.clone(),
            edited_at: user.edited_at.clone(),
            verified_at: user.verified_at.clone(),
        }
    }
}

/// A member before and after an edit.
#[derive(Debug, Clone, PartialEq, Eq)]
pub struct EditUserResponse {
    pub old: UserResponse,
    pub new: UserResponse,
}

/// A member as the public list shows it.
#[derive(Debug, Clone, PartialEq, Eq)]
pub struct Serializeableuser {
    pub username: String,
    pub url: String,
}

/// The public list of members.
#[derive(Debug, Clone, PartialEq, Eq)]
pub struct UsersResponse {
    pub users: Vec<Serializeableuser>,
}

/// An advertisement as it is shown to visitors.
#[derive(Debug, Clone, PartialEq, Eq)]
pub struct PublicAdResponse {
    pub username: String,
    pub image_url: String,
    pub ad_url: String,
}

/// A request to place an advertisement.
#[derive(Debug, Clone, PartialEq, Eq)]
pub struct AdSubmission {
    pub image_url: String,
    pub discord_id: u64,
}

/// An advertisement as the bot sees it.
#[derive(Debug, Clone, PartialEq, Eq)]
pub struct AdResponse {
    pub username: String,
    pub discord_id: u64,
    pub image_url: String,
    pub ad_url: String,
    pub verified: bool,
    pub created_at: String,
    pub edited_at: String,
    pub verified_at: String,
}

/// The mathematical value of an [`AdResponse`].
pub struct AdResponseView {
    pub username: Seq<char>,
    pub discord_id: u64,
    pub image_url: Seq<char>,
    pub ad_url: Seq<char>,
    pub verified: bool,
    pub created_at: Seq<char>,
    pub edited_at: Seq<char>,
    pub verified_at: Seq<char>,
}

impl View for AdResponse {
    type V = AdResponseView;

    open spec fn view(&self) -> AdResponseView {
        AdResponseView {
            username: self.username@,
            discord_id: self.discord_id,
            image_url: self.image_url@,
            ad_url: self.ad_url@,
            verified: self.verified,
            created_at: self.created_at@,
            edited_at: self.edited_at@,
            verified_at: self.verified_at@,
        }
    }
}

/// How the record `ad` is shown.
pub open spec fn shown_ad(ad: ads::Model) -> AdResponseView {
    AdResponseView {
        username: ad.username@,
        discord_id: shown_id(ad.discord_id),
        image_url: ad.image_url@,
        ad_url: ad.ad_url@,
        verified: ad.verified,
        created_at: ad.created_at@,
        edited_at: ad.edited_at@,
        verified_at: ad.verified_at@,
    }
}

impl AdResponse {
    /// Shows the record `ad`.
    pub fn of(ad: &ads::Model) -> (r: AdResponse)
        ensures
            r@ == shown_ad(*ad),
    {
        AdResponse {
            username: ad.username.clone(),
            discord_id: to_shown_id(ad.discord_id),
            image_url: ad.image_url.clone(),
            ad_url: ad.ad_url.clone(),
            verified: ad.verified,
            created_at: ad.created_at.clone(),
            edited_at: ad.edited_at.clone(),
            verified_at: ad.verified_at.clone(),
        }
    }
}

/// A request to change the picture of an advertisement.
#[derive(Debug, Clone, PartialEq, Eq)]
pub struct AdEditRequest {
    pub discord_id: u64,
    pub url: Option<String>,
}

/// A request to remove several records at once.
#[derive(Debug, Clone, PartialEq, Eq)]
pub struct BulkUserDeleteRequest {
    pub discord_ids: Option<Vec<u64>>,
    pub usernames: Option<Vec<String>>,
}

/// What was removed by a request for several members.
#[derive(Debug, Clone, PartialEq, Eq)]
pub struct BulkUserDeleteResponse {
    pub message: String,
    pub discord_ids: Vec<u64>,
    pub usernames: Vec<String>,
}

/// What was removed by a request for several advertisements.
#[derive(Debug, Clone, PartialEq, Eq)]
pub struct BulkAdDeleteResponse {
    pub message: String,
    pub discord_ids: Vec<u64>,
    pub usernames: Vec<String>,
    pub image_urls: Vec<String>,
}

/// A request to join the ring.
#[derive(Debug, Clone, PartialEq, Eq)]
pub struct UserSubmission {
    pub username: String,
    pub url: String,
    pub discord_id: u64,
}

/// A request to change a member's name, address or both.
#[derive(Debug, Clone, PartialEq, Eq)]
pub struct UserEdit {
    pub discord_id: u64,
    pub username: Option<String>,
    pub url: Option<String>,
}

} // verus!
