//! Records as the database keeps them.

pub mod barang;
pub mod user;
