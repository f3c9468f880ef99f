//! What the services settle before they turn to the database and the disk.

pub mod barang_service;
pub mod user_services;
