//! What a client sends to change its photo.

use vstd::prelude::*;

verus! {

/// The bytes of the photo, where one was sent.
#[derive(Debug)]
pub struct UpdatePhotoUserSchema {
    pub file: Option<Vec<u8>>,
}

} // verus!
