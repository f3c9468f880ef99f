//! What is sent to clients.

pub mod barang;
pub mod global;
pub mod token;
pub mod user;
