//! Authentication, session lifecycle and role gating for a multi-role backend.
//!
//! A client logs in and is handed two bearer tokens: a short-lived access
//! token and a long-lived refresh token, each signed with a key pair of its
//! own and each tied to a session in a registry. Every protected request
//! is then checked in four stages: the token is found, its signature and
//! expiry are verified, its session is looked up, and its account is
//! resolved. A route lets the request through if the account's role is on
//! the route's list. Deleting a session revokes its token at once, however
//! long the token would still be valid.
//!
//! The library decides; it neither waits nor reads nor writes. Whatever it
//! needs from a database or a session store it asks for as an action, and
//! the program around it hands the answer back as an event.
//!
//! - [`utils::token`]: the tokens, how they are written, issued and verified.
//! - [`utils::session`]: the session registry.
//! - [`utils::extractor`]: the four stages of a protected request, and the
//!   guard of a route.
//! - [`utils::error`]: the failures and what a client is told of them.
//! - [`utils::password`]: password hashing.
//! - [`utils::config`]: the settings.
//! - [`handlers`]: registration, login, refresh and logout, and their
//!   replies.
//! - [`models`], [`dtos`], [`schemas`], [`services`]: accounts and goods as
//!   they are kept, shown and sent.

pub mod dtos;
pub mod handlers;
pub mod models;
pub mod schemas;
pub mod services;
pub mod utils;
