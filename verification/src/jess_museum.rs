//! The first ring, with its own table of members.

pub mod api;
pub mod members;
