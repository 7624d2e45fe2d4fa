//! The requests a flow asks the transport to perform. The library only
//! describes requests; carrying them over the network is the transport's job.

use vstd::prelude::*;

verus! {

/// A GET request to perform next.
pub struct GetRequest {
    pub url: String,
}

/// A POST request with an ordered form body.
pub struct PostRequest {
    pub url: String,
    pub form: Vec<(String, String)>,
}

} // verus!
