//! The read-only status query: its route table and its handler.

use vstd::prelude::*;
use vstd::string::StringExecFns;
use crate::logging::RouteDescriptor;
use crate::snapshot::{spec_snapshot_json, VersionReporter};

verus! {

/// What the status query answers with: a successful status line, a JSON
/// content type, and the snapshot payload as the body.
pub struct StatusReply {
    pub status_code: u16,
    pub status_reason: String,
    pub content_type: String,
    pub body: String,
}

/// The routes of the status component: the one read-only version query.
pub fn routes() -> (r: Vec<RouteDescriptor>)
    ensures
        r@.len() == 1,
        r@[0].method@ == "GET"@,
        r@[0].uri@ == "/version"@,
        r@[0].rank is None,
{
    let mut r: Vec<RouteDescriptor> = Vec::new();
    r.push(
        RouteDescriptor {
            method: String::from_str("GET"),
            uri: String::from_str("/version"),
            rank: None,
        },
    );
    r
}

/// The version handler: always succeeds, never touches the toolchain or
/// the version-control system, and answers with the snapshot; the first
/// query publishes the cache and every later one reuses it.
pub fn version(reporter: &mut VersionReporter) -> (r: StatusReply)
    requires
        old(reporter).wf(),
    ensures
        final(reporter).wf(),
        final(reporter).identity == old(reporter).identity,
        final(reporter).cached is Some,
        final(reporter).cached->0@ == r.body@,
        old(reporter).cached is Some ==> final(reporter).cached == old(reporter).cached,
        r.status_code == 200,
        r.status_reason@ == "OK"@,
        r.content_type@ == "application/json"@,
        r.body@ == spec_snapshot_json(old(reporter).identity),
{
    let body = reporter.current_version();
    StatusReply {
        status_code: 200,
        status_reason: String::from_str("OK"),
        content_type: String::from_str("application/json"),
        body,
    }
}

} // verus!
