//! Labels under which requests are counted.

use vstd::prelude::*;

verus! {

/// The endpoints that requests are counted for.
#[derive(Clone, Copy, Debug, PartialEq, Eq, Hash, Structural)]
pub enum Endpoint {
    SpaceApi,
    OpenBadgeSimple,
    OpenBadgeFull,
}

/// The label set of one request counter.
#[derive(Clone, Copy, Debug, PartialEq, Eq, Hash, Structural)]
pub struct RequestLabels {
    endpoint: Endpoint,
}

impl RequestLabels {
    /// The endpoint that the labels name.
    pub closed spec fn endpoint_spec(self) -> Endpoint {
        self.endpoint
    }

    /// The labels of the counter of one endpoint.
    pub fn new(endpoint: Endpoint) -> (r: RequestLabels)
        ensures
            r.endpoint_spec() == endpoint,
    {
        Self { endpoint }
    }

    /// The endpoint that the labels name.
    pub fn endpoint(&self) -> (r: Endpoint)
        ensures
            r == self.endpoint_spec(),
    {
        self.endpoint
    }
}

} // verus!
