//! The body of a reply that only reports.

use vstd::prelude::*;

verus! {

/// A status word and a message.
#[derive(Debug)]
pub struct Response {
    pub status: &'static str,
    pub message: String,
}

} // verus!
