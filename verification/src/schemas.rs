//! What clients send.

pub mod auth;
pub mod barang;
pub mod user;
