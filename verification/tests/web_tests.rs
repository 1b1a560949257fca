use wantjob::jobs::{get_mock_job, mock_jobs};
use wantjob::routes::{
    current_job_id, details_id, failure_response, handle_request, route_template,
};
use wantjob::view::{minify_html, render, text};

#[test]
fn root_redirects_to_jobs() {
    let r = handle_request("GET", "/", None);
    assert_eq!(r.status, 307);
    assert_eq!(r.location, Some("/jobs".to_string()));
    assert!(r.body.is_empty());
}

#[test]
fn jobs_page_without_query_shows_welcome() {
    let r = handle_request("GET", "/jobs", None);
    assert_eq!(r.status, 200);
    assert_eq!(r.content_type, Some("text/html".to_string()));
    assert!(r.body.contains("Welcome to WantJob!"));
    assert!(r.body.contains("Sr Rust Developer"));
    assert!(r.body.contains("Software Developer Intern"));
    assert!(!r.body.contains("Join the up and coming hype driven development!"));
    assert!(!r.body.contains("You are the new team SCRUMLORD and AGILEMASTER"));
}

#[test]
fn jobs_page_with_selection_shows_detail_block() {
    let r = handle_request("GET", "/jobs", Some("currentJobId=1"));
    assert_eq!(r.status, 200);
    assert!(r.body.contains("Join the up and coming hype driven development!"));
    assert!(!r.body.contains("Welcome to WantJob!"));
}

#[test]
fn detail_fragment_contains_only_the_fragment() {
    let r = handle_request("GET", "/htmx/jobs/details/3", None);
    assert_eq!(r.status, 200);
    assert_eq!(r.content_type, Some("text/html".to_string()));
    assert!(r.body.contains("You are the new team SCRUMLORD and AGILEMASTER"));
    assert!(r.body.contains("Technical Product Manager"));
    assert!(!r.body.contains("html"));
    assert!(!r.body.contains("Welcome to WantJob!"));
    assert!(!r.body.contains("Sr Rust Developer"));
}

#[test]
fn detail_fragment_unknown_id_is_not_found() {
    let r = handle_request("GET", "/htmx/jobs/details/zzz", None);
    assert_eq!(r.status, 404);
    assert!(r.body.is_empty());
}

#[test]
fn unknown_path_is_not_found() {
    assert_eq!(handle_request("GET", "/nope", None).status, 404);
    assert_eq!(handle_request("GET", "/htmx/jobs/details/a/b", None).status, 404);
    assert_eq!(handle_request("GET", "/htmx/jobs/details/", None).status, 404);
}

#[test]
fn non_get_method_not_allowed() {
    assert_eq!(handle_request("POST", "/jobs", None).status, 405);
}

#[test]
fn failure_path_then_next_request_succeeds() {
    let failure = failure_response();
    assert_eq!(failure.status, 500);
    assert_eq!(failure.body, "Service panicked");
    assert_eq!(
        failure.content_type,
        Some("text/plain; charset=utf-8".to_string())
    );
    let next = handle_request("GET", "/jobs", None);
    assert_eq!(next.status, 200);
}

#[test]
fn rendering_twice_is_byte_identical() {
    let a = handle_request("GET", "/jobs", Some("currentJobId=2"));
    let b = handle_request("GET", "/jobs", Some("currentJobId=2"));
    assert_eq!(a.body, b.body);
    let c = handle_request("GET", "/htmx/jobs/details/1", None);
    let d = handle_request("GET", "/htmx/jobs/details/1", None);
    assert_eq!(c.body, d.body);
}

#[test]
fn minified_output_drops_comments_and_whitespace_runs() {
    let noisy = "<p>a  b</p>  <!-- secret note -->\n\n  <div>c   d</div>".to_string();
    let out = minify_html(noisy.clone());
    assert!(!out.contains("<!--"));
    assert!(!out.contains("secret note"));
    assert!(!out.contains("  "));
    assert_ne!(out, noisy);
}

#[test]
fn render_escapes_text() {
    let out = render(&text("a<b&c>d\"e"));
    assert_eq!(out, "a&lt;b&amp;c&gt;d&quot;e");
}

#[test]
fn route_templates() {
    assert_eq!(route_template("/"), Some("/"));
    assert_eq!(route_template("/jobs"), Some("/jobs"));
    assert_eq!(route_template("/htmx/jobs/details/17"), Some("/htmx/jobs/details/:id"));
    assert_eq!(route_template("/htmx/jobs/details/"), None);
    assert_eq!(route_template("/static/favicon.svg"), None);
}

#[test]
fn details_id_extraction() {
    assert_eq!(details_id("/htmx/jobs/details/abc"), Some("abc".to_string()));
    assert_eq!(details_id("/htmx/jobs/details/a/b"), None);
    assert_eq!(details_id("/jobs"), None);
}

#[test]
fn query_parameter_parsing() {
    assert_eq!(current_job_id("currentJobId=1"), Some("1".to_string()));
    assert_eq!(current_job_id("a=b&currentJobId=9&c=d"), Some("9".to_string()));
    assert_eq!(current_job_id("currentJobId="), Some("".to_string()));
    assert_eq!(current_job_id("other=1"), None);
    assert_eq!(current_job_id(""), None);
}

#[test]
fn mock_jobs_cycles_the_pool() {
    let jobs = mock_jobs(30);
    assert_eq!(jobs.len(), 30);
    assert_eq!(jobs[0].id, "2");
    assert_eq!(jobs[1].id, "1");
    assert_eq!(jobs[2].id, "3");
    assert_eq!(jobs[6].id, "2");
    assert_eq!(jobs[13].id, "1");
    let few = mock_jobs(2);
    assert_eq!(few.len(), 2);
}

#[test]
fn mock_job_lookup() {
    let job = get_mock_job("1".to_string()).unwrap();
    assert_eq!(job.title, "Sr Rust Developer");
    assert_eq!(job.company, "GitHub");
    assert!(get_mock_job("missing".to_string()).is_none());
}

#[test]
fn layout_wraps_children_in_page_shell() {
    let page = wantjob::components::Layout(vec![wantjob::view::text("hello inner")]);
    let html = wantjob::view::htmlify(&page);
    assert!(html.contains("WantJob"));
    assert!(html.contains("Want Job"));
    assert!(html.contains("hello inner"));
    assert!(html.contains("Login"));
    assert!(html.contains("Register"));
}

#[test]
fn job_summary_links_to_detail_fragment() {
    let job = get_mock_job("3".to_string()).unwrap();
    let card = wantjob::components::JobSummary(job);
    let html = wantjob::view::htmlify(&card);
    assert!(html.contains("/htmx/jobs/details/3"));
    assert!(html.contains("Amazon"));
    assert!(html.contains("278K USD"));
}
