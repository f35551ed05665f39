//! Per-request options.

use vstd::prelude::*;

verus! {

/// Options of a single request, as opposed to the ones fixed when the
/// client is built.
pub struct RequestOptions {
    /// Custom headers, in the order the caller supplied them.  They are
    /// merged with the profile's defaults and never overwritten by them.
    pub headers: Vec<(String, String)>,
    /// A per-request timeout in milliseconds, overriding the client's
    /// default timeout.
    pub timeout: Option<u64>,
    /// Forces HTTP/3 for this request.  The client must have been built
    /// with HTTP/3 enabled, else the request fails.
    pub http3_prior_knowledge: bool,
}

impl Default for RequestOptions {
    /// No custom headers, no timeout override, no forced HTTP/3.
    fn default() -> (r: Self)
        ensures
            r.headers@.len() == 0,
            r.timeout is None,
            !r.http3_prior_knowledge,
    {
        RequestOptions { headers: Vec::new(), timeout: None, http3_prior_knowledge: false }
    }
}

} // verus!
