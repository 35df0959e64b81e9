//! Search route bodies.

use vstd::prelude::*;

verus! {

/// The body of a search request.
#[derive(Debug, Clone)]
pub struct SearchRequest {
    pub query: String,
    pub limit: Option<u32>,
}

} // verus!
