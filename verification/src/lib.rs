//! A webring: member sites are visited one after the other, forwards,
//! backwards or at random, and a single bot manages the members through an
//! API that is guarded by short-lived tokens.
//!
//! The library holds what the servers decide. [`authority`] and [`jwt`]
//! issue, verify and withdraw the tokens; [`ring`] finds a member's
//! neighbours and picks members at random, and [`tour`] shows that the way
//! forward passes every member once; [`api`], [`jess_museum`] and
//! [`web`] say what each endpoint answers for a given snapshot of the
//! store; [`config`] holds the settings. Reading the store, the clock of
//! the endpoints and the network is left to the program that uses the
//! library.

pub mod api;
pub mod authority;
pub mod config;
pub mod database;
pub mod jess_museum;
pub mod jwt;
pub mod ring;
pub mod text;
pub mod tour;
pub mod web;
