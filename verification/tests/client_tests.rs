use std::cell::{Cell, RefCell};
use std::time::Duration;

use analysis_api_client::body::{
    filter_envelope, rename_payload, u64_to_decimal, upload_field_name, ApiProjectFilter,
    JsonValue, ReqBody,
};
use analysis_api_client::client::{
    job_status_of, unit_of, ApiClient, ApiRequest, Method, PollingStrategy, Transport,
};
use analysis_api_client::decode::{ApiAnalysisJobResponse, ApiProject, JobStatusResponse};
use analysis_api_client::error::{ApiError, ApiErrorMessage};
use analysis_api_client::response::HttpResponse;
use analysis_api_client::status::JobStatus;

/// Renders a JSON document deterministically so tests can assert on it.
fn render(v: &JsonValue) -> String {
    match v {
        JsonValue::Null => "null".to_string(),
        JsonValue::Bool(b) => format!("{}", b),
        JsonValue::UInt(n) => format!("{}", n),
        JsonValue::Str(s) => format!("\"{}\"", s),
        JsonValue::Array(items) => {
            let inner: Vec<String> = items.iter().map(render).collect();
            format!("[{}]", inner.join(","))
        }
        JsonValue::Object(entries) => {
            let inner: Vec<String> = entries
                .iter()
                .map(|e| format!("\"{}\":{}", e.0, render(&e.1)))
                .collect();
            format!("{{{}}}", inner.join(","))
        }
    }
}

fn describe_body(b: &ReqBody) -> String {
    match b {
        ReqBody::Empty => "empty".to_string(),
        ReqBody::Json(v) => format!("json:{}", render(v)),
        ReqBody::Form(f) => {
            let parts: Vec<String> = f
                .parts
                .iter()
                .map(|p| format!("{}={}", p.field_name, p.path))
                .collect();
            format!("form:{}", parts.join(","))
        }
    }
}

struct RecordedRequest {
    method: Method,
    segments: Vec<String>,
    body: String,
}

/// A scripted stand-in for the transport: hands out the queued outcomes in
/// order and records every request it sees.
struct ScriptedTransport {
    responses: RefCell<Vec<Result<HttpResponse, ApiError>>>,
    unreadable: Vec<String>,
    calls: Cell<usize>,
    waits: Cell<usize>,
    requests: RefCell<Vec<RecordedRequest>>,
}

impl ScriptedTransport {
    fn with_responses(responses: Vec<Result<HttpResponse, ApiError>>) -> ScriptedTransport {
        ScriptedTransport {
            responses: RefCell::new(responses),
            unreadable: Vec::new(),
            calls: Cell::new(0),
            waits: Cell::new(0),
            requests: RefCell::new(Vec::new()),
        }
    }
}

fn ok_response(status: u16, body: &str) -> Result<HttpResponse, ApiError> {
    Ok(HttpResponse { status, body: body.to_string() })
}

impl Transport for &ScriptedTransport {
    fn execute(&self, request: &ApiRequest) -> Result<HttpResponse, ApiError> {
        self.calls.set(self.calls.get() + 1);
        self.requests.borrow_mut().push(RecordedRequest {
            method: request.method,
            segments: request.path_segments.clone(),
            body: describe_body(&request.body),
        });
        self.responses.borrow_mut().remove(0)
    }

    fn attach_file(&self, path: &str) -> Result<(), String> {
        if self.unreadable.iter().any(|p| p == path) {
            Err(format!("unreadable file: {}", path))
        } else {
            Ok(())
        }
    }

    fn wait(&self, _duration: Duration) {
        self.waits.set(self.waits.get() + 1);
    }
}

/// Declines the poll once the iteration number reaches the cutoff.
struct AbortAtIteration {
    cutoff: usize,
}

impl PollingStrategy<JobStatus> for AbortAtIteration {
    fn next_wait(&self, iteration_number: usize, _state: &JobStatus) -> Option<Duration> {
        if iteration_number >= self.cutoff {
            None
        } else {
            Some(Duration::from_millis(0))
        }
    }
}

/// Records every consultation's iteration number and status; never aborts.
struct RecordingStrategy {
    seen: RefCell<Vec<(usize, JobStatus)>>,
}

impl PollingStrategy<JobStatus> for &RecordingStrategy {
    fn next_wait(&self, iteration_number: usize, state: &JobStatus) -> Option<Duration> {
        self.seen.borrow_mut().push((iteration_number, *state));
        Some(Duration::from_millis(0))
    }
}

/// Counts how often it is consulted; never aborts, never waits.
struct CountingStrategy {
    invocations: Cell<usize>,
}

impl PollingStrategy<JobStatus> for &CountingStrategy {
    fn next_wait(&self, _iteration_number: usize, _state: &JobStatus) -> Option<Duration> {
        self.invocations.set(self.invocations.get() + 1);
        Some(Duration::from_millis(0))
    }
}

fn status_body(wire: &str) -> Result<HttpResponse, ApiError> {
    ok_response(200, &format!("{{\"jobId\":\"j-1\",\"status\":\"{}\"}}", wire))
}

#[test]
fn get_job_status_fetches_and_projects_the_status() {
    let transport = ScriptedTransport::with_responses(vec![status_body("queued")]);
    let client = ApiClient::new(&transport);
    let r = client.get_job_status("j-1");
    assert_eq!(r, Ok(JobStatus::Queued));
    assert_eq!(transport.calls.get(), 1);
    let requests = transport.requests.borrow();
    assert_eq!(requests[0].method, Method::Get);
    assert_eq!(requests[0].segments, vec!["api", "jobs", "j-1"]);
    assert_eq!(requests[0].body, "empty");
}

#[test]
fn polling_reaches_completed_after_three_fetches() {
    let transport = ScriptedTransport::with_responses(vec![
        status_body("queued"),
        status_body("running"),
        status_body("completed"),
    ]);
    let client = ApiClient::new(&transport);
    let r = client.poll_job_completion("j-1", Duration::from_millis(0));
    assert_eq!(r, Ok(JobStatus::Completed));
    assert_eq!(transport.calls.get(), 3);
    assert_eq!(transport.waits.get(), 2);
}

#[test]
fn polling_consults_the_strategy_once_per_non_ready_status_in_order() {
    let transport = ScriptedTransport::with_responses(vec![
        status_body("queued"),
        status_body("running"),
        status_body("completed"),
    ]);
    let client = ApiClient::new(&transport);
    let strategy = RecordingStrategy { seen: RefCell::new(Vec::new()) };
    let r = client.poll_job_completion("j-1", &strategy);
    assert_eq!(r, Ok(JobStatus::Completed));
    assert_eq!(
        *strategy.seen.borrow(),
        vec![(1, JobStatus::Queued), (2, JobStatus::Running)]
    );
}

#[test]
fn polling_aborts_with_the_last_observed_status() {
    let transport = ScriptedTransport::with_responses(vec![
        status_body("queued"),
        status_body("running"),
        status_body("running"),
    ]);
    let client = ApiClient::new(&transport);
    let r = client.poll_job_completion("j-1", AbortAtIteration { cutoff: 2 });
    assert_eq!(r, Ok(JobStatus::Running));
    assert_eq!(transport.calls.get(), 2);
}

#[test]
fn polling_stops_on_a_fetch_error_without_consulting_the_strategy() {
    let transport = ScriptedTransport::with_responses(vec![Err(ApiError::Protocol(
        "connection reset".to_string(),
    ))]);
    let client = ApiClient::new(&transport);
    let strategy = CountingStrategy { invocations: Cell::new(0) };
    let r = client.poll_job_completion("j-1", &strategy);
    assert_eq!(r, Err(ApiError::Protocol("connection reset".to_string())));
    assert_eq!(transport.calls.get(), 1);
    assert_eq!(strategy.invocations.get(), 0);
}

#[test]
fn polling_ends_with_a_failed_status_too() {
    let transport = ScriptedTransport::with_responses(vec![status_body("failed")]);
    let client = ApiClient::new(&transport);
    let r = client.poll_job_completion("j-1", Duration::from_millis(0));
    assert_eq!(r, Ok(JobStatus::Failed));
    assert_eq!(transport.calls.get(), 1);
    assert_eq!(transport.waits.get(), 0);
}

#[test]
fn start_analysis_with_unreadable_file_sends_nothing() {
    let mut transport = ScriptedTransport::with_responses(vec![]);
    transport.unreadable.push("missing.dat".to_string());
    let client = ApiClient::new(&transport);
    let r = client.start_analysis(5, &["ok.txt", "missing.dat"]);
    assert!(matches!(r, Err(ApiError::IO(_))));
    assert_eq!(transport.calls.get(), 0);
}

#[test]
fn start_analysis_uploads_parts_in_input_order() {
    let transport = ScriptedTransport::with_responses(vec![ok_response(
        200,
        "{\"analysisId\":42,\"jobId\":\"job-7\"}",
    )]);
    let client = ApiClient::new(&transport);
    let r = client.start_analysis(5, &["a.zip", "b.zip"]);
    assert_eq!(
        r,
        Ok(ApiAnalysisJobResponse { analysis_id: 42, job_id: "job-7".to_string() })
    );
    let requests = transport.requests.borrow();
    assert_eq!(requests[0].method, Method::Post);
    assert_eq!(requests[0].segments, vec!["api", "projects", "5", "analysis"]);
    assert_eq!(requests[0].body, "form:file0=a.zip,file1=b.zip");
}

#[test]
fn get_projects_decodes_the_listing() {
    let transport = ScriptedTransport::with_responses(vec![ok_response(
        200,
        "[{\"id\":1,\"name\":\"alpha\",\"parentId\":null}]",
    )]);
    let client = ApiClient::new(&transport);
    let r = client.get_projects();
    assert_eq!(
        r,
        Ok(vec![ApiProject { id: 1, name: "alpha".to_string(), parent_id: None }])
    );
    let requests = transport.requests.borrow();
    assert_eq!(requests[0].method, Method::Get);
    assert_eq!(requests[0].segments, vec!["x", "projects"]);
}

#[test]
fn query_projects_posts_the_filter_envelope() {
    let transport = ScriptedTransport::with_responses(vec![ok_response(200, "[]")]);
    let client = ApiClient::new(&transport);
    let filter = ApiProjectFilter {
        name: Some("web".to_string()),
        metadata: Some(vec![("owner".to_string(), "qa".to_string())]),
    };
    let r = client.query_projects(&filter);
    assert_eq!(r, Ok(vec![]));
    let requests = transport.requests.borrow();
    assert_eq!(requests[0].method, Method::Post);
    assert_eq!(requests[0].segments, vec!["x", "projects", "query"]);
    assert_eq!(
        requests[0].body,
        "json:{\"filter\":{\"name\":\"web\",\"metadata\":{\"owner\":\"qa\"}}}"
    );
}

#[test]
fn set_analysis_name_puts_the_rename_payload() {
    let transport = ScriptedTransport::with_responses(vec![ok_response(200, "")]);
    let client = ApiClient::new(&transport);
    let r = client.set_analysis_name(5, 9, "new name");
    assert_eq!(r, Ok(()));
    let requests = transport.requests.borrow();
    assert_eq!(requests[0].method, Method::Put);
    assert_eq!(
        requests[0].segments,
        vec!["x", "projects", "5", "analyses", "9"]
    );
    assert_eq!(requests[0].body, "json:{\"name\":\"new name\"}");
}

#[test]
fn set_analysis_name_surfaces_a_rejection() {
    let transport = ScriptedTransport::with_responses(vec![ok_response(
        404,
        "{\"error\":\"no such analysis\"}",
    )]);
    let client = ApiClient::new(&transport);
    let r = client.set_analysis_name(5, 9, "new name");
    assert_eq!(
        r,
        Err(ApiError::NonSuccess(404, ApiErrorMessage::Nice("no such analysis".to_string())))
    );
}

#[test]
fn filter_envelope_omits_absent_fields() {
    let empty = ApiProjectFilter { name: None, metadata: None };
    assert_eq!(
        filter_envelope(&empty),
        JsonValue::Object(vec![("filter".to_string(), JsonValue::Object(vec![]))])
    );
    let name_only = ApiProjectFilter { name: Some("web".to_string()), metadata: None };
    assert_eq!(
        filter_envelope(&name_only),
        JsonValue::Object(vec![(
            "filter".to_string(),
            JsonValue::Object(vec![(
                "name".to_string(),
                JsonValue::Str("web".to_string())
            )])
        )])
    );
}

#[test]
fn decimal_rendering_is_exact() {
    assert_eq!(u64_to_decimal(0).as_str(), "0");
    assert_eq!(u64_to_decimal(7).as_str(), "7");
    assert_eq!(u64_to_decimal(10).as_str(), "10");
    assert_eq!(u64_to_decimal(105).as_str(), "105");
    assert_eq!(u64_to_decimal(4294967295).as_str(), "4294967295");
    assert_eq!(upload_field_name(0).as_str(), "file0");
    assert_eq!(upload_field_name(12).as_str(), "file12");
}

#[test]
fn as_json_wraps_a_document() {
    assert_eq!(
        ReqBody::as_json(JsonValue::Null),
        ReqBody::Json(JsonValue::Null)
    );
}

#[test]
fn fixed_wait_strategy_always_grants_its_duration() {
    let d = Duration::from_millis(25);
    assert_eq!(d.next_wait(1, &JobStatus::Queued), Some(Duration::from_millis(25)));
    assert_eq!(d.next_wait(900, &JobStatus::Running), Some(Duration::from_millis(25)));
}

#[test]
fn job_status_projection_keeps_status_and_errors() {
    let ok = Ok(JobStatusResponse { job_id: "j".to_string(), status: JobStatus::Cancelled });
    assert_eq!(job_status_of(ok), Ok(JobStatus::Cancelled));
    let err = Err(ApiError::IO("broken pipe".to_string()));
    assert_eq!(job_status_of(err), Err(ApiError::IO("broken pipe".to_string())));
}

#[test]
fn unit_mapping_discards_the_body_only() {
    let ok = Ok(HttpResponse { status: 200, body: "ignored".to_string() });
    assert_eq!(unit_of(ok), Ok(()));
    let err = Err(ApiError::Protocol("timed out".to_string()));
    assert_eq!(unit_of(err), Err(ApiError::Protocol("timed out".to_string())));
}

#[test]
fn rename_payload_is_the_single_name_member() {
    assert_eq!(
        rename_payload("fresh"),
        JsonValue::Object(vec![("name".to_string(), JsonValue::Str("fresh".to_string()))])
    );
}
