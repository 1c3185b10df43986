//! The HTTP API's decisions: what a request is accepted as and what each
//! reply holds. Reading requests and writing replies is the server's part.

use vstd::prelude::*;

pub mod header;
pub mod extractors;
pub mod handlers;

verus! {

/// The largest request body that the upload route reads.
pub const MAX_UPLOAD_BYTES: usize = 16777216;

} // verus!
