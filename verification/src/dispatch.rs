//! The per-connection decision a worker makes.
//!
//! A worker owns one connection at a time: it reads one buffer, and this
//! module decides — from the buffer and the routing table alone — which
//! handler, if any, should run. A malformed buffer or an unmatched route
//! yields no handler, and the worker simply drops the connection; nothing
//! here can fail or panic, so one bad request never takes a worker down.

use vstd::prelude::*;
use crate::request::{parse_spec, parse_request, request_line, HttpRequestTypes};
use crate::request::lemma_parse_request_line;
use crate::routing::{route_lookup, RoutingTable};

verus! {

/// What dispatching a buffer against a table yields: nothing when the
/// buffer is malformed, else the routing lookup for the parsed method and
/// path.
pub open spec fn dispatch_spec<H>(
    m: Map<(HttpRequestTypes, Seq<u8>), H>,
    s: Seq<u8>,
) -> Option<H> {
    match parse_spec(s) {
        None => None,
        Some((method, path)) => route_lookup(m, method, path),
    }
}

/// Decide which handler should serve the request in `buf`: parse the
/// request line, then look the (method, path) key up in the table. Yields
/// nothing for a malformed buffer, an unrecognized method, or an
/// unregistered path.
pub fn dispatch<H: Copy>(table: &RoutingTable<H>, buf: &[u8]) -> (r: Option<H>)
    ensures
        r == dispatch_spec(table@, buf@),
{
    match parse_request(buf) {
        Ok(req) => table.lookup(req.method, req.path.as_slice()),
        Err(_) => None,
    }
}

/// A registered route is reached: a request line holding exactly a
/// registered method token and path dispatches to the handler registered
/// for that key, whatever follows on the line.
pub proof fn lemma_registered_route_reached<H>(
    m: Map<(HttpRequestTypes, Seq<u8>), H>,
    method: HttpRequestTypes,
    path: Seq<u8>,
    h: H,
    tail: Seq<u8>,
)
    requires
        method != HttpRequestTypes::NONE,
        m.contains_key((method, path)),
        m[(method, path)] == h,
        forall|k: int| 0 <= k < path.len() ==> path[k] != crate::request::SPACE,
        tail.len() == 0 || tail[0] == crate::request::SPACE,
    ensures
        dispatch_spec(m, request_line(method, path, tail)) == Some(h),
{
    lemma_parse_request_line(method, path, tail);
}

/// An unregistered route runs nothing: a request line whose (method, path)
/// key is not in the table dispatches to no handler, so the worker writes
/// nothing to the connection.
pub proof fn lemma_unregistered_route_dropped<H>(
    m: Map<(HttpRequestTypes, Seq<u8>), H>,
    method: HttpRequestTypes,
    path: Seq<u8>,
    tail: Seq<u8>,
)
    requires
        !m.contains_key((method, path)),
        forall|k: int| 0 <= k < path.len() ==> path[k] != crate::request::SPACE,
        tail.len() == 0 || tail[0] == crate::request::SPACE,
    ensures
        dispatch_spec(m, request_line(method, path, tail)) is None,
{
    lemma_parse_request_line(method, path, tail);
}

} // verus!
