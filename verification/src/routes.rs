//! The routing layer: stateless mapping from request method, path and
//! query to a response, over the mock job data and the view
//! components.

use vstd::prelude::*;

use crate::components::{
    home_page_details_text, job_posting_details_text, job_summary_text, jobs_page_wrap_text,
    layout_text, HomePageDetails, JobPostingDetails, JobSummary, Layout,
};
use crate::jobs::{
    base_company, base_description, base_id, base_location, base_salary, base_title, get_mock_job,
    job_index_of, mock_jobs,
};
use crate::strutil::{
    find_char, first_index_of, has_prefix, lemma_first_index_of, str_contains_char, str_eq,
    str_starts_with,
};
use crate::view::{
    attrs1, element, htmlify, lemma_render_nodes_push, minified_of, nodes1, nodes2, render_nodes,
    Node,
};

verus! {

/// What a handler hands back to the HTTP edge: a status code, optional
/// `Content-Type` and `Location` header values, and a body.
pub struct Response {
    pub status: u16,
    pub content_type: Option<String>,
    pub location: Option<String>,
    pub body: String,
}

/// The path prefix of the detail-fragment route.
pub const DETAILS_PREFIX: &'static str = "/htmx/jobs/details/";

/// The query parameter key selecting a job on the listing page,
/// including its separator.
pub const CURRENT_JOB_ID_KEY: &'static str = "currentJobId=";

/// True exactly when `p` is a detail-fragment path: the prefix
/// followed by one non-empty segment.
pub open spec fn is_details_path(p: Seq<char>) -> bool {
    &&& has_prefix(p, DETAILS_PREFIX@)
    &&& p.len() > DETAILS_PREFIX@.len()
    &&& forall|j: int| DETAILS_PREFIX@.len() <= j < p.len() ==> p[j] != '/'
}

/// The identifier segment of a detail-fragment path.
pub open spec fn details_id_of(p: Seq<char>) -> Seq<char> {
    p.subrange(DETAILS_PREFIX@.len() as int, p.len() as int)
}

/// The route template a path matches, if any.
pub open spec fn route_template_spec(p: Seq<char>) -> Option<Seq<char>> {
    if p == "/"@ {
        Some("/"@)
    } else if p == "/jobs"@ {
        Some("/jobs"@)
    } else if is_details_path(p) {
        Some("/htmx/jobs/details/:id"@)
    } else {
        None
    }
}

/// Matches a path against the routing table, returning the matched
/// template for the tracing span.
pub fn route_template(path: &str) -> (r: Option<&'static str>)
    ensures
        r.deep_view() == route_template_spec(path@),
{
    if str_eq(path, "/") {
        Some("/")
    } else if str_eq(path, "/jobs") {
        Some("/jobs")
    } else if details_id(path).is_some() {
        Some("/htmx/jobs/details/:id")
    } else {
        None
    }
}

/// Extracts the identifier segment of a detail-fragment path, when the
/// path is one.
pub fn details_id(path: &str) -> (r: Option<String>)
    ensures
        (r is Some) == is_details_path(path@),
        r matches Some(id) ==> id@ == details_id_of(path@),
{
    if !str_starts_with(path, DETAILS_PREFIX) {
        return None;
    }
    let plen = DETAILS_PREFIX.unicode_len();
    let len = path.unicode_len();
    if len <= plen {
        return None;
    }
    let rest = path.substring_char(plen, len);
    if str_contains_char(rest, '/') {
        proof {
            let j = choose|j: int| 0 <= j < rest@.len() && rest@[j] == '/';
            assert(path@[plen + j] == '/');
        }
        return None;
    }
    proof {
        assert forall|j: int| plen <= j < path@.len() implies path@[j] != '/' by {
            assert(rest@[j - plen] == path@[j]);
        }
    }
    Some(String::from_str(rest))
}

/// The value of the selection parameter in a raw query string: the
/// remainder of the first `&`-separated segment that starts with the
/// key, taken verbatim.
pub open spec fn current_job_id_of(q: Seq<char>) -> Option<Seq<char>>
    decreases q.len(),
{
    let i = first_index_of(q, '&');
    let seg = q.subrange(0, i);
    if has_prefix(seg, CURRENT_JOB_ID_KEY@) {
        Some(seg.subrange(CURRENT_JOB_ID_KEY@.len() as int, seg.len() as int))
    } else if i == q.len() {
        None
    } else {
        proof {
            lemma_first_index_of(q, '&');
        }
        current_job_id_of(q.subrange(i + 1, q.len() as int))
    }
}

/// Finds the selection parameter in a raw query string.
pub fn current_job_id(q: &str) -> (r: Option<String>)
    ensures
        r.deep_view() == current_job_id_of(q@),
    decreases q@.len(),
{
    let len = q.unicode_len();
    let i = find_char(q, '&');
    proof {
        lemma_first_index_of(q@, '&');
    }
    let seg = q.substring_char(0, i);
    if str_starts_with(seg, CURRENT_JOB_ID_KEY) {
        let klen = CURRENT_JOB_ID_KEY.unicode_len();
        let v = seg.substring_char(klen, i);
        Some(String::from_str(v))
    } else if i == len {
        None
    } else {
        let rest = q.substring_char(i + 1, len);
        current_job_id(rest)
    }
}

/// How the listing of the first `n` generated jobs renders, in order.
pub open spec fn jobs_list_text(n: int) -> Seq<char>
    decreases n,
{
    if n <= 0 {
        Seq::<char>::empty()
    } else {
        jobs_list_text(n - 1) + job_summary_text(
            base_id((n - 1) % 6),
            base_title((n - 1) % 6),
            base_company((n - 1) % 6),
            base_location((n - 1) % 6),
            base_salary((n - 1) % 6),
        )
    }
}

/// How the detail pane renders: the selected job's detail block when
/// the selection names a known job, the welcome placeholder otherwise.
pub open spec fn detail_pane_text(sel: Option<Seq<char>>) -> Seq<char> {
    match sel {
        Some(id) => match job_index_of(id) {
            Some(k) => job_posting_details_text(base_title(k), base_description(k)),
            None => home_page_details_text(),
        },
        None => home_page_details_text(),
    }
}

/// How the full listing page renders before minification.
pub open spec fn jobs_page_text(sel: Option<Seq<char>>) -> Seq<char> {
    layout_text(jobs_page_wrap_text(jobs_list_text(30), detail_pane_text(sel)))
}

/// The redirect for the root path: temporary, to the listing page.
pub fn root_handler() -> (r: Response)
    ensures
        r.status == 307,
        r.location matches Some(l) && l@ == "/jobs"@,
        r.content_type is None,
        r.body@.len() == 0,
{
    Response {
        status: 307,
        content_type: None,
        location: Some(String::from_str("/jobs")),
        body: String::new(),
    }
}

/// The listing page: thirty generated job summaries beside a detail
/// pane showing the selected job, or the welcome placeholder when
/// nothing (or nothing known) is selected.
#[verifier::rlimit(50)]
pub fn job_handler(current: Option<String>) -> (r: Response)
    ensures
        r.status == 200,
        r.content_type matches Some(ct) && ct@ == "text/html"@,
        r.location is None,
        r.body@ == minified_of(jobs_page_text(current.deep_view())),
{
    let jobs = mock_jobs(30);
    let mut summaries: Vec<Node> = Vec::new();
    let mut i: usize = 0;
    while i < 30
        invariant
            i <= 30,
            jobs@.len() == 30,
            forall|j: int| 0 <= j < 30 ==> crate::jobs::is_base_job(#[trigger] jobs@[j], j % 6),
            render_nodes(summaries@) == jobs_list_text(i as int),
        decreases 30 - i,
    {
        let card = JobSummary(jobs[i].duplicate());
        let ghost pre = summaries@;
        summaries.push(card);
        proof {
            lemma_render_nodes_push(pre, card);
            assert(render_nodes(summaries@) == jobs_list_text(i + 1));
        }
        i += 1;
    }
    let pane: Node = match current {
        Some(id) => match get_mock_job(id) {
            Some(job) => JobPostingDetails(job),
            None => HomePageDetails(),
        },
        None => HomePageDetails(),
    };
    let inner = element(
        "div",
        attrs1("class", String::from_str("h-full flex")),
        nodes2(
            element(
                "div",
                attrs1("class", String::from_str("basis-[48rem] mr-2 overflow-auto h-full")),
                summaries,
            ),
            element(
                "div",
                attrs1("class", String::from_str(
                    "basis-full bg-dark-weak rounded-sm overflow-auto h-full",
                )),
                nodes1(pane),
            ),
        ),
    );
    let page = Layout(nodes1(inner));
    let body = htmlify(&page);
    Response {
        status: 200,
        content_type: Some(String::from_str("text/html")),
        location: None,
        body,
    }
}

/// The detail fragment for one job: the detail block alone when the
/// identifier names a known job, an empty not-found response
/// otherwise.
pub fn htmx_jobs_details(id: String) -> (r: Response)
    ensures
        job_index_of(id@) matches Some(k) ==> {
            &&& r.status == 200
            &&& r.content_type matches Some(ct) && ct@ == "text/html"@
            &&& r.location is None
            &&& r.body@ == minified_of(job_posting_details_text(base_title(k), base_description(k)))
        },
        job_index_of(id@) is None ==> {
            &&& r.status == 404
            &&& r.content_type is None
            &&& r.location is None
            &&& r.body@.len() == 0
        },
{
    match get_mock_job(id) {
        Some(job) => {
            let fragment = JobPostingDetails(job);
            let body = htmlify(&fragment);
            Response {
                status: 200,
                content_type: Some(String::from_str("text/html")),
                location: None,
                body,
            }
        },
        None => Response { status: 404, content_type: None, location: None, body: String::new() },
    }
}

/// The response the panic-catching layer serves when a handler fails.
pub fn failure_response() -> (r: Response)
    ensures
        r.status == 500,
        r.content_type matches Some(ct) && ct@ == "text/plain; charset=utf-8"@,
        r.location is None,
        r.body@ == "Service panicked"@,
{
    Response {
        status: 500,
        content_type: Some(String::from_str("text/plain; charset=utf-8")),
        location: None,
        body: String::from_str("Service panicked"),
    }
}

/// What the router's response to a request looks like, case by case
/// over the routing table.
pub open spec fn handled(
    method: Seq<char>,
    path: Seq<char>,
    query: Option<Seq<char>>,
    r: Response,
) -> bool {
    if method != "GET"@ {
        r.status == 405
    } else if path == "/"@ {
        &&& r.status == 307
        &&& r.location matches Some(l) && l@ == "/jobs"@
    } else if path == "/jobs"@ {
        &&& r.status == 200
        &&& r.body@ == minified_of(
            jobs_page_text(
                match query {
                    Some(q) => current_job_id_of(q),
                    None => None,
                },
            ),
        )
    } else if is_details_path(path) {
        match job_index_of(details_id_of(path)) {
            Some(k) => r.status == 200 && r.body@ == minified_of(
                job_posting_details_text(base_title(k), base_description(k)),
            ),
            None => r.status == 404,
        }
    } else {
        r.status == 404
    }
}

/// Builds the tracing span for one request, matching the path against
/// the routing table: `http.route` carries the matched template, or
/// the `UnknownRoute` sentinel when no route matched.
pub fn span_for_request(
    method: &str,
    path: &str,
    query: Option<String>,
    user_agent: Option<String>,
    content_length: Option<String>,
    version: crate::HttpVersion,
) -> (s: crate::telemetry::Span)
    ensures
        route_template_spec(path@) matches Some(t) ==> s.http_route@ == t,
        route_template_spec(path@) is None ==> s.http_route@ == "UnknownRoute"@,
        s.name@ == crate::telemetry::span_name_spec(method@, route_template_spec(path@)),
        s.kind@ == "Server"@,
        s.http_request_method@ == method@,
        s.url_path@ == path@,
        s.url_query == query,
        s.user_agent_original == user_agent,
        s.http_flavor@ == crate::telemetry::flavor_spec(version),
        s.http_request_content_length == content_length,
        s.is_open(),
{
    let matched: Option<String> = match route_template(path) {
        Some(t) => Some(String::from_str(t)),
        None => None,
    };
    let descriptor = crate::telemetry::RequestDescriptor {
        method: String::from_str(method),
        matched_route: matched,
        path: String::from_str(path),
        query,
        user_agent,
        content_length,
        version,
    };
    crate::telemetry::make_span(&descriptor)
}

/// Routes one request: the root redirect, the listing page, the detail
/// fragment, and not-found and method-not-allowed fallbacks.
pub fn handle_request(method: &str, path: &str, query: Option<&str>) -> (r: Response)
    ensures
        handled(method@, path@, query.deep_view(), r),
{
    if !str_eq(method, "GET") {
        return Response { status: 405, content_type: None, location: None, body: String::new() };
    }
    if str_eq(path, "/") {
        return root_handler();
    }
    if str_eq(path, "/jobs") {
        let sel: Option<String> = match query {
            Some(q) => current_job_id(q),
            None => None,
        };
        return job_handler(sel);
    }
    match details_id(path) {
        Some(id) => htmx_jobs_details(id),
        None => Response { status: 404, content_type: None, location: None, body: String::new() },
    }
}

} // verus!
