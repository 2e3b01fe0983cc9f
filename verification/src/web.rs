//! The web front end, which serves the site and sends navigation on to the
//! API server.

pub mod api;
pub mod config;
