//! The records of the store, as plain values.

pub mod ads;
pub mod users;
