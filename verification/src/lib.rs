//! The request logic of a self-hosted music server: the replies that each
//! endpoint gives for what the database answered, the parsing of the
//! `Authorization` header, sessions and their expiry, password checks,
//! the grouping of tracks under albums and artists, and picture selection.

mod text;

pub mod auth;
pub mod clock;
pub mod grouping;
pub mod ids;
pub mod laws;
pub mod models;
pub mod password;

pub mod response;
pub mod routes;
pub mod startup;
