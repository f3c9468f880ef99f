//! Building blocks of the authentication pipeline.

pub mod codec;
pub mod config;
pub mod error;
pub mod extractor;
pub mod password;
pub mod session;
pub mod token;
