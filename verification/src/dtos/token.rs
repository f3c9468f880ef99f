//! The bodies that carry tokens.

use vstd::prelude::*;

verus! {

/// The tokens handed to a client. A reply to a refresh carries the access
/// token alone.
#[derive(Debug)]
pub struct TokenData {
    pub access_token: String,
    pub refresh_token: Option<String>,
    /// When the refresh token expires, in seconds since the epoch.
    pub refresh_token_expired: Option<i64>,
}

/// The body of a reply to a refresh.
#[derive(Debug)]
pub struct RefreshTokenResponseDto {
    pub status: String,
    pub data: TokenData,
}

} // verus!
