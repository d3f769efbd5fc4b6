use vstd::prelude::*;

verus! {

/// The answer of `/_cluster/health`.
#[derive(Debug)]
pub struct ClusterHealthResponse {
    /// `green`, `yellow` or `red`.
    pub status: String,
}

} // verus!
