//! The advertisements that verified members may place.

use crate::api::lookup::Owned;
use crate::ring::Record;
use vstd::prelude::*;

verus! {

/// One advertisement. It belongs to the member of the same name.
#[derive(Debug, Clone, PartialEq)]
pub struct Model {
    /// Assigned by the store, never reused.
    pub id: i32,
    pub username: String,
    pub discord_id: i64,
    pub image_url: String,
    /// Where a visitor is sent: the owner's site.
    pub ad_url: String,
    pub verified: bool,
    pub created_at: String,
    /// Empty until the record is edited.
    pub edited_at: String,
    /// Empty until the record is verified.
    pub verified_at: String,
}

/// The mathematical value of a [`Model`].
pub struct ModelView {
    pub id: int,
    pub username: Seq<char>,
    pub discord_id: int,
    pub image_url: Seq<char>,
    pub ad_url: Seq<char>,
    pub verified: bool,
    pub created_at: Seq<char>,
    pub edited_at: Seq<char>,
    pub verified_at: Seq<char>,
}

impl View for Model {
    type V = ModelView;

    open spec fn view(&self) -> ModelView {
        ModelView {
            id: self.id as int,
            username: self.username@,
            discord_id: self.discord_id as int,
            image_url: self.image_url@,
            ad_url: self.ad_url@,
            verified: self.verified,
            created_at: self.created_at@,
            edited_at: self.edited_at@,
            verified_at: self.verified_at@,
        }
    }
}

impl ModelView {
    /// The time of verification is recorded for the verified advertisements
    /// and for no others.
    pub open spec fn sound(self) -> bool {
        self.verified <==> self.verified_at.len() > 0
    }
}

impl Record for Model {
    open spec fn key(&self) -> int {
        self.id as int
    }

    open spec fn name(&self) -> Seq<char> {
        self.username@
    }

    open spec fn is_verified(&self) -> bool {
        self.verified
    }

    fn id(&self) -> (r: i32) {
        self.id
    }

    fn username(&self) -> (r: &String) {
        &self.username
    }

    fn verified(&self) -> (r: bool) {
        self.verified
    }
}

impl Owned for Model {
    open spec fn principal(&self) -> i64 {
        self.discord_id
    }

    fn discord_id(&self) -> (r: i64) {
        self.discord_id
    }
}

} // verus!
