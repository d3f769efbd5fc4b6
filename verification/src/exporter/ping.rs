use vstd::prelude::*;

use crate::client::{query, Query};
use crate::config::Conf;

verus! {

/// The endpoint whose answer tells that the node is up.
pub const ENDPOINT: &'static str = "/";

/// The answer to a ping carried an HTTP status other than success.
#[derive(PartialEq, Eq, Structural, Clone, Copy, Debug)]
pub struct RequestFailed {
    pub status: u16,
}

/// An HTTP status in the success class (200 to 299).
pub open spec fn is_success(status: u16) -> bool {
    200 <= status <= 299
}

/// Checks that the node answers at all; reports no gauges of its own.
pub struct Ping {}

impl Ping {
    pub fn new() -> Ping {
        Ping {}
    }

    /// The request that pings the node at `conf.addr`.
    pub fn query(&self, conf: &Conf) -> (r: Query)
        ensures
            r.url@ == conf.addr@ + ENDPOINT@,
            r.params@.len() == 0,
    {
        let no_params: [(&str, &str); 0] = [];
        let r = query(conf.addr.as_str(), ENDPOINT, &no_params);
        proof {
            assert(r.params@.len() == crate::client::params_view(r.params@).len());
        }
        r
    }

    /// Judges the HTTP status of the answer: the node is up exactly when
    /// the status is a success; otherwise the status is reported.
    pub fn check(&self, status: u16) -> (r: Result<(), RequestFailed>)
        ensures
            r is Ok <==> is_success(status),
            r is Ok <==> 200 <= status <= 299,
            r matches Err(e) ==> e.status == status,
    {
        if 200 <= status && status <= 299 {
            Ok(())
        } else {
            Err(RequestFailed { status })
        }
    }
}

} // verus!
