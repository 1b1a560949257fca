//! The request-tracing model: a span is created from an immutable
//! snapshot of an incoming request, carries a fixed set of well-known
//! attribute keys, and has exactly one outcome recorded before it is
//! closed and exported.  The exporter itself is an outside collaborator;
//! this module holds the logic that decides every attribute value.

use vstd::prelude::*;

use crate::HttpVersion;

verus! {

/// The `http.flavor` attribute literal for a protocol version.
pub open spec fn flavor_spec(v: HttpVersion) -> Seq<char> {
    match v {
        HttpVersion::V09 => "0.9"@,
        HttpVersion::V10 => "1.0"@,
        HttpVersion::V11 => "1.1"@,
        HttpVersion::V20 => "2.0"@,
        HttpVersion::V30 => "3.0"@,
        HttpVersion::Other => "Unknown"@,
    }
}

/// Maps a protocol version to the `http.flavor` attribute value.
pub fn http_flavor(v: HttpVersion) -> (r: &'static str)
    ensures
        r@ == flavor_spec(v),
{
    match v {
        HttpVersion::V09 => "0.9",
        HttpVersion::V10 => "1.0",
        HttpVersion::V11 => "1.1",
        HttpVersion::V20 => "2.0",
        HttpVersion::V30 => "3.0",
        HttpVersion::Other => "Unknown",
    }
}

/// An immutable snapshot of an incoming HTTP request, taken once per
/// request before any span attribute is computed.
pub struct RequestDescriptor {
    /// The request method, e.g. `GET`.
    pub method: String,
    /// The route template the path matched, or `None` when no route
    /// matched.
    pub matched_route: Option<String>,
    /// The raw request path.
    pub path: String,
    /// The raw query string, when one was present.
    pub query: Option<String>,
    /// The `User-Agent` header, when present and readable as text.
    pub user_agent: Option<String>,
    /// The `Content-Length` header, when present and readable as text.
    pub content_length: Option<String>,
    /// The protocol version of the request.
    pub version: HttpVersion,
}

/// The route attribute recorded on a span: the matched template, or the
/// `UnknownRoute` sentinel when no route matched.
pub open spec fn route_attr_spec(matched: Option<Seq<char>>) -> Seq<char> {
    match matched {
        Option::Some(t) => t,
        Option::None => "UnknownRoute"@,
    }
}

/// The span name: `"<METHOD> <ROUTE>"`.
pub open spec fn span_name_spec(method: Seq<char>, matched: Option<Seq<char>>) -> Seq<char> {
    method + " "@ + route_attr_spec(matched)
}

/// One traced unit of work: a single HTTP request.  The attribute keys
/// are fixed, well-known strings, held here as one field each.
pub struct Span {
    /// `otel.name`
    pub name: String,
    /// `otel.kind`
    pub kind: String,
    /// `http.request.method`
    pub http_request_method: String,
    /// `http.route`
    pub http_route: String,
    /// `url.path`
    pub url_path: String,
    /// `url.query`
    pub url_query: Option<String>,
    /// `user_agent.original`
    pub user_agent_original: Option<String>,
    /// `http.flavor`
    pub http_flavor: String,
    /// `http.request.content_length`
    pub http_request_content_length: Option<String>,
    /// `http.response.status_code`; empty until a success outcome is
    /// recorded.
    pub http_response_status_code: Option<u16>,
    /// `error.type`; empty until a failure outcome is recorded.
    pub error_type: Option<String>,
    /// `otel.status_code`; set to `ERROR` on the failure path only.
    pub otel_status_code: Option<String>,
}

impl Span {
    /// An open span: no outcome has been recorded yet.
    pub open spec fn is_open(self) -> bool {
        &&& self.http_response_status_code is None
        &&& self.error_type is None
        &&& self.otel_status_code is None
    }

    /// A success outcome: the status code is set and the failure
    /// attributes are empty.
    pub open spec fn has_success_outcome(self) -> bool {
        &&& self.http_response_status_code is Some
        &&& self.error_type is None
        &&& self.otel_status_code is None
    }

    /// A failure outcome: a classification and the `ERROR` status are
    /// set and the status code is empty.
    pub open spec fn has_failure_outcome(self) -> bool {
        &&& self.http_response_status_code is None
        &&& self.error_type is Some
        &&& self.otel_status_code matches Some(c) && c@ == "ERROR"@
    }

    /// Exactly one of the two outcomes holds: never both, never
    /// neither.
    pub open spec fn has_exactly_one_outcome(self) -> bool {
        self.has_success_outcome() <==> !self.has_failure_outcome()
    }
}

/// The span a success outcome leaves behind.
pub open spec fn with_success(s: Span, code: u16) -> Span {
    Span { http_response_status_code: Some(code), ..s }
}

/// The span a failure outcome leaves behind: the stringified failure
/// class and the `ERROR` marker, with the rest untouched.
pub open spec fn with_failure(s: Span, classification: String, marker: String) -> Span {
    Span { error_type: Some(classification), otel_status_code: Some(marker), ..s }
}

/// Creates the span for one request: the name is `"<METHOD> <ROUTE>"`,
/// the kind is fixed to `Server`, the request attributes are copied
/// from the snapshot, and the outcome attributes are left empty.
pub fn make_span(req: &RequestDescriptor) -> (s: Span)
    ensures
        s.name@ == span_name_spec(req.method@, req.matched_route.deep_view()),
        s.kind@ == "Server"@,
        s.http_request_method == req.method,
        s.http_route@ == route_attr_spec(req.matched_route.deep_view()),
        s.url_path == req.path,
        s.url_query == req.query,
        s.user_agent_original == req.user_agent,
        s.http_flavor@ == flavor_spec(req.version),
        s.http_request_content_length == req.content_length,
        s.is_open(),
{
    let route: String = match &req.matched_route {
        Option::Some(t) => t.clone(),
        Option::None => String::from_str("UnknownRoute"),
    };
    let mut name = req.method.clone();
    name.append(" ");
    name.append(route.as_str());
    Span {
        name,
        kind: String::from_str("Server"),
        http_request_method: req.method.clone(),
        http_route: route,
        url_path: req.path.clone(),
        url_query: clone_opt(&req.query),
        user_agent_original: clone_opt(&req.user_agent),
        http_flavor: String::from_str(http_flavor(req.version)),
        http_request_content_length: clone_opt(&req.content_length),
        http_response_status_code: Option::None,
        error_type: Option::None,
        otel_status_code: Option::None,
    }
}

/// Clones an optional string, field for field.
fn clone_opt(o: &Option<String>) -> (r: Option<String>)
    ensures
        r == *o,
{
    match o {
        Option::Some(s) => Option::Some(s.clone()),
        Option::None => Option::None,
    }
}

/// Records the success outcome on an open span: the numeric status code
/// of the response, with the failure attributes left empty.
pub fn record_success(span: &mut Span, code: u16)
    requires
        old(span).is_open(),
    ensures
        *final(span) == with_success(*old(span), code),
        final(span).has_success_outcome(),
{
    span.http_response_status_code = Option::Some(code);
}

/// Records the failure outcome on an open span: the stringified
/// classification and the literal `ERROR` status, with the status code
/// left empty.
pub fn record_failure(span: &mut Span, classification: String)
    requires
        old(span).is_open(),
    ensures
        final(span).error_type == Some(classification),
        final(span).otel_status_code matches Some(c) && c@ == "ERROR"@,
        final(span).http_response_status_code is None,
        final(span).name == old(span).name,
        final(span).kind == old(span).kind,
        final(span).http_request_method == old(span).http_request_method,
        final(span).http_route == old(span).http_route,
        final(span).url_path == old(span).url_path,
        final(span).url_query == old(span).url_query,
        final(span).user_agent_original == old(span).user_agent_original,
        final(span).http_flavor == old(span).http_flavor,
        final(span).http_request_content_length == old(span).http_request_content_length,
        final(span).has_failure_outcome(),
{
    let marker = String::from_str("ERROR");
    span.error_type = Option::Some(classification);
    span.otel_status_code = Option::Some(marker);
}

/// The one outcome recorded on a span before it closes: a successful
/// response with its status code, or a failure with its
/// classification.
pub enum Outcome {
    Success(u16),
    Failure(String),
}

/// Records the outcome on an open span, on exactly one of the two
/// paths: afterwards exactly one of the success or failure attribute
/// sets holds.
pub fn record_outcome(span: &mut Span, outcome: Outcome)
    requires
        old(span).is_open(),
    ensures
        final(span).has_exactly_one_outcome(),
        outcome matches Outcome::Success(code) ==> (final(span).has_success_outcome()
            && final(span).http_response_status_code == Some(code)),
        outcome matches Outcome::Failure(classification) ==> (final(span).has_failure_outcome()
            && final(span).error_type == Some(classification)),
        final(span).name == old(span).name,
        final(span).http_route == old(span).http_route,
{
    match outcome {
        Outcome::Success(code) => record_success(span, code),
        Outcome::Failure(classification) => record_failure(span, classification),
    }
}

/// Recording a failure on an open span leaves exactly one outcome set:
/// the classification together with the `ERROR` marker, and never the
/// status code.
pub proof fn lemma_failure_outcome_exclusive(s: Span, classification: String, marker: String)
    requires
        s.is_open(),
        marker@ == "ERROR"@,
    ensures
        with_failure(s, classification, marker).has_exactly_one_outcome(),
        with_failure(s, classification, marker).has_failure_outcome(),
{
}

/// Exactly one of (`http.response.status_code` set) or (`error.type`
/// plus `otel.status_code = ERROR` set) holds for every completed span:
/// a span is completed by exactly one run of one of the two recorders,
/// whose contracts give one of the two outcomes.
pub proof fn lemma_outcome_exclusive(s: Span)
    requires
        s.has_success_outcome() || s.has_failure_outcome(),
    ensures
        s.has_exactly_one_outcome(),
{
}

/// The `http.route` attribute of a produced span equals the matched
/// template when one matched, and the `UnknownRoute` sentinel when
/// none did.
pub proof fn lemma_route_attr(matched: Option<Seq<char>>)
    ensures
        matched matches Some(t) ==> route_attr_spec(matched) == t,
        matched is None ==> route_attr_spec(matched) == "UnknownRoute"@,
{
}

/// What the exporter is configured with: collector endpoint, an
/// optional authentication header, and the logging filter.
pub struct ExporterConfig {
    pub endpoint: String,
    pub header: Option<(String, String)>,
    pub env_filter: String,
}

/// Why the exporter configuration is rejected.
#[derive(Debug, PartialEq, Eq, Structural)]
pub enum ConfigError {
    /// The authentication key was present without a header value.
    MissingHeaderValue,
}

/// Decides the exporter configuration from the environment values the
/// startup code read: the endpoint defaults to the local collector,
/// the authentication header is sent exactly when the key is present,
/// and a missing header value beside a present key is rejected, as is
/// demanded of the startup path.
pub fn exporter_config(
    honeycomb_key_set: bool,
    header_value: Option<String>,
    endpoint: Option<String>,
    env_filter: Option<String>,
) -> (r: Result<ExporterConfig, ConfigError>)
    ensures
        (r is Err) == (honeycomb_key_set && header_value is None),
        r matches Ok(c) ==> {
            &&& (match endpoint {
                Some(e) => c.endpoint == e,
                None => c.endpoint@ == "http://localhost:4317"@,
            })
            &&& honeycomb_key_set ==> (c.header matches Some(h) && (h.0@ == "x-honeycomb-team"@
                && (header_value matches Some(v) && h.1 == v)))
            &&& !honeycomb_key_set ==> c.header is None
            &&& (match env_filter {
                Some(f) => c.env_filter == f,
                None => c.env_filter@ == "wantjob=debug,axum::rejection=trace"@,
            })
        },
{
    let header: Option<(String, String)> = if honeycomb_key_set {
        match header_value {
            Some(v) => Some((String::from_str("x-honeycomb-team"), v)),
            None => {
                return Err(ConfigError::MissingHeaderValue);
            },
        }
    } else {
        None
    };
    let endpoint: String = match endpoint {
        Some(e) => e,
        None => String::from_str("http://localhost:4317"),
    };
    let env_filter: String = match env_filter {
        Some(f) => f,
        None => String::from_str("wantjob=debug,axum::rejection=trace"),
    };
    Ok(ExporterConfig { endpoint, header, env_filter })
}

/// The process-wide resource descriptor: the fixed, well-known keys in
/// a fixed order, paired with the values the startup code computed
/// once.  Immutable for the process lifetime.
pub fn resource_attributes(
    service_version: String,
    runtime_version: String,
    command: String,
    command_line: String,
    executable_name: String,
    executable_path: String,
    pid: String,
    arch: String,
    hostname: String,
) -> (r: Vec<(String, String)>)
    ensures
        r@.len() == 11,
        r@[0].0@ == "service.name"@ && r@[0].1@ == "wantjob"@,
        r@[1].0@ == "service.version"@ && r@[1].1 == service_version,
        r@[2].0@ == "process.runtime.name"@ && r@[2].1@ == "rustc"@,
        r@[3].0@ == "process.runtime.version"@ && r@[3].1 == runtime_version,
        r@[4].0@ == "process.command"@ && r@[4].1 == command,
        r@[5].0@ == "process.command_line"@ && r@[5].1 == command_line,
        r@[6].0@ == "process.executable.name"@ && r@[6].1 == executable_name,
        r@[7].0@ == "process.executable.path"@ && r@[7].1 == executable_path,
        r@[8].0@ == "process.pid"@ && r@[8].1 == pid,
        r@[9].0@ == "host.arch"@ && r@[9].1 == arch,
        r@[10].0@ == "host.name"@ && r@[10].1 == hostname,
{
    let mut r: Vec<(String, String)> = Vec::new();
    r.push((String::from_str("service.name"), String::from_str("wantjob")));
    r.push((String::from_str("service.version"), service_version));
    r.push((String::from_str("process.runtime.name"), String::from_str("rustc")));
    r.push((String::from_str("process.runtime.version"), runtime_version));
    r.push((String::from_str("process.command"), command));
    r.push((String::from_str("process.command_line"), command_line));
    r.push((String::from_str("process.executable.name"), executable_name));
    r.push((String::from_str("process.executable.path"), executable_path));
    r.push((String::from_str("process.pid"), pid));
    r.push((String::from_str("host.arch"), arch));
    r.push((String::from_str("host.name"), hostname));
    r
}

/// Recording a success on an open span leaves exactly one outcome set:
/// the status code, and never the failure attributes.
pub proof fn lemma_success_outcome_exclusive(s: Span, code: u16)
    requires
        s.is_open(),
    ensures
        with_success(s, code).has_exactly_one_outcome(),
        with_success(s, code).has_success_outcome(),
{
}

} // verus!
