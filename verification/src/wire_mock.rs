//! The data model of the remote mock-HTTP server's stub mappings. These are
//! pure value types; fetching and deleting stubs over HTTP, and the wire
//! encoding, live with the surrounding runtime, which converts to and from
//! these types at the boundary.

use std::collections::HashMap;
use vstd::prelude::*;

verus! {

/// A stub as it is created on the server: the request pattern it matches and
/// the response it serves.
pub struct WireMockStub {
    pub request: RequestPattern,
    pub response: ResponseDefinition,
}

/// The request side of a stub mapping. At most one of the `url*` fields is
/// normally present; absent fields are simply not part of the pattern.
pub struct RequestPattern {
    pub method: String,
    pub url: Option<String>,
    pub url_pattern: Option<String>,
    pub url_path: Option<String>,
    pub url_path_pattern: Option<String>,
}

/// The response side of a stub mapping.
pub struct ResponseDefinition {
    pub status: u16,
    pub body: Option<String>,
    pub headers: Option<HashMap<String, String>>,
}

/// One page of stub mappings as the server lists them.
pub struct StubMappings {
    pub mappings: Vec<StubMapping>,
    pub meta: Option<Meta>,
}

/// A stub mapping as the server lists it, identified by its id.
pub struct StubMapping {
    pub id: String,
    pub request: RequestPattern,
    pub response: ResponseDefinition,
    pub priority: Option<i32>,
    pub scenario_name: Option<String>,
}

/// Listing metadata.
pub struct Meta {
    pub total: usize,
}

} // verus!
