//! Request handling decisions of the REST server.
pub mod auth;
pub mod rest;
