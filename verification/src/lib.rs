//! A small job-board web library: typed view trees rendered to minified
//! HTML, stateless route handling over mock job data, and an HTTP
//! request-tracing span model with fixed, well-known attribute keys.

pub mod components;
pub mod jobs;
pub mod routes;
pub mod strutil;
pub mod telemetry;
pub mod view;

use vstd::prelude::*;

verus! {

/// The HTTP protocol version of an incoming request, as far as the
/// tracing attributes distinguish them.
#[derive(Clone, Copy, PartialEq, Eq, Structural, Debug)]
pub enum HttpVersion {
    V09,
    V10,
    V11,
    V20,
    V30,
    Other,
}

} // verus!
