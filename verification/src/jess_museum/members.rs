//! The members of the first ring.

use crate::ring::Record;
use vstd::prelude::*;

verus! {

/// One member.
#[derive(Debug, Clone, PartialEq)]
pub struct Model {
    /// Assigned by the store, never reused; the ring is ordered by it.
    pub id: i32,
    pub username: String,
    pub discord: String,
    /// Where a visitor is sent.
    pub url: String,
    pub verified: bool,
}

impl Record for Model {
    open spec fn key(&self) -> int {
        self.id as int
    }

    open spec fn name(&self) -> Seq<char> {
        self.username@
    }

    open spec fn is_verified(&self) -> bool {
        self.verified
    }

    fn id(&self) -> (r: i32) {
        self.id
    }

    fn username(&self) -> (r: &String) {
        &self.username
    }

    fn verified(&self) -> (r: bool) {
        self.verified
    }
}

} // verus!
