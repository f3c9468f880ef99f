//! The course of each request that opens, renews or closes a session.

pub mod auth_handler;
pub mod reply;
