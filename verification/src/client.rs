//! The API client: typed operations over an injected transport, and the
//! strategy-driven polling engine that tracks job completion.

use vstd::prelude::*;
use std::time::Duration;
use crate::body::{
    FormPart, MultipartForm, ReqBody, ApiProjectFilter, filter_envelope, rename_payload,
    upload_field_name, u64_to_decimal, spec_is_upload_form,
};
use crate::decode::{ApiAnalysisJobResponse, ApiProject, JobStatusResponse};
use crate::error::{ApiError, ApiResult};
use crate::response::{ApiResponse, HttpResponse};
use crate::status::JobStatus;

verus! {

/// The HTTP methods the client issues.
#[derive(Copy, Clone, Debug, PartialEq, Eq, Structural)]
pub enum Method {
    Get,
    Post,
    Put,
}

/// One outgoing request, as plain data: a method, a logical path given as
/// opaque segments (callers do any escaping), and a body. The transport
/// resolves the segments against its base URL and injects authentication
/// before sending.
pub struct ApiRequest {
    pub method: Method,
    pub path_segments: Vec<String>,
    pub body: ReqBody,
}

/// The transport collaborator behind every exchange. Implementations live
/// outside the library: a real HTTP stack configured with a base URL,
/// credentials and TLS policy, or a test double. Nothing is assumed of an
/// implementation here; the pipeline classifies whatever comes back.
pub trait Transport {
    /// Resolve the request against the base URL, apply authentication, send
    /// the request, and read the full response body as text. A failure
    /// before a response is obtained is reported as `Protocol`; a response
    /// body that cannot be read as text is reported as `IO`.
    fn execute(&self, request: &ApiRequest) -> Result<HttpResponse, ApiError>;

    /// Whether the file at `path` can be attached to a multipart form; the
    /// error text says why it cannot.
    fn attach_file(&self, path: &str) -> Result<(), String>;

    /// Suspend the calling thread for `duration`.
    fn wait(&self, duration: Duration);
}

/// Defines a polling strategy based on the iteration number and current
/// state of the poll.
///
/// `next_wait` decides how long the polling process waits before re-checking
/// the state: `Some(duration)` means wait that long and check again, `None`
/// means end the poll immediately, keeping the latest state. The iteration
/// number starts at 1 and increments on every call.
pub trait PollingStrategy<T> {
    fn next_wait(&self, iteration_number: usize, state: &T) -> Option<Duration>;
}

/// Relies on `Duration` being `Copy` (a plain pair of integers).
#[verifier::external_body]
fn copy_duration(d: &Duration) -> (r: Duration)
    ensures
        r == *d,
{
    *d
}

/// Simple polling strategy that always waits a fixed amount of time between
/// iterations and never aborts.
impl<T> PollingStrategy<T> for Duration {
    fn next_wait(&self, iteration_number: usize, state: &T) -> (r: Option<Duration>)
        ensures
            r == Some(*self),
    {
        Some(copy_duration(self))
    }
}

/// What one polling iteration decided.
pub enum PollDecision {
    /// Wait this long, then check the status again.
    Continue(Duration),
    /// Stop polling with this outcome.
    Stop(ApiResult<JobStatus>),
}

/// One transition of the polling state machine, taking the outcome of a
/// status fetch and the strategy's answer (asked only for a non-ready
/// status) to a decision: a fetch error stops the poll with that identical
/// error; a ready status stops it with that status; otherwise a granted
/// wait continues with exactly that duration, and a declined one stops the
/// poll with the observed status as a successful outcome.
pub fn poll_transition(fetched: ApiResult<JobStatus>, wait: Option<Duration>) -> (d: PollDecision)
    ensures
        fetched matches Err(e) ==> (d matches PollDecision::Stop(r) && r matches Err(e2) && e2
            == e),
        fetched matches Ok(s) ==> (if s == JobStatus::Completed || s == JobStatus::Failed {
            d matches PollDecision::Stop(r) && r == Ok::<JobStatus, ApiError>(s)
        } else {
            match wait {
                Some(dur) => d == PollDecision::Continue(dur),
                None => d matches PollDecision::Stop(r) && r == Ok::<JobStatus, ApiError>(s),
            }
        }),
{
    match fetched {
        Err(e) => PollDecision::Stop(Err(e)),
        Ok(status) => {
            if status.is_ready() {
                PollDecision::Stop(Ok(status))
            } else {
                match wait {
                    Some(wait_dur) => PollDecision::Continue(wait_dur),
                    None => PollDecision::Stop(Ok(status)),
                }
            }
        },
    }
}

/// Project the job status out of a decoded job-status response, passing
/// errors through unchanged.
pub fn job_status_of(r: ApiResult<JobStatusResponse>) -> (s: ApiResult<JobStatus>)
    ensures
        r matches Ok(j) ==> s == Ok::<JobStatus, ApiError>(j.status),
        r matches Err(e) ==> (s matches Err(e2) && e2 == e),
{
    match r {
        Ok(jsr) => Ok(jsr.status),
        Err(e) => Err(e),
    }
}

/// Discard the payload of a completed exchange, keeping only that it
/// succeeded; errors pass through unchanged.
pub fn unit_of(r: ApiResult<HttpResponse>) -> (s: ApiResult<()>)
    ensures
        r matches Ok(_) ==> s == Ok::<(), ApiError>(()),
        r matches Err(e) ==> (s matches Err(e2) && e2 == e),
{
    match r {
        Ok(_) => Ok(()),
        Err(e) => Err(e),
    }
}

/// Main entry point for interacting with the REST API: narrow, typed
/// operations, each a thin composition of request building and the response
/// pipeline over the single `api_request` chokepoint.
pub struct ApiClient<T: Transport> {
    transport: T,
}

impl<T: Transport> ApiClient<T> {
    /// The injected transport.
    pub closed spec fn spec_transport(&self) -> T {
        self.transport
    }
}

/// Whether `req` was assembled from exactly these pieces.
pub open spec fn spec_is_request(
    req: ApiRequest,
    method: Method,
    segments: Seq<Seq<char>>,
    body: ReqBody,
) -> bool {
    req.method == method && req.path_segments@.len() == segments.len() && (forall|i: int|
        0 <= i < segments.len() ==> (#[trigger] req.path_segments@[i])@ == segments[i])
        && req.body == body
}

/// Assemble a request from its pieces.
pub fn build_request(method: Method, path_segments: &[&str], body: ReqBody) -> (r: ApiRequest)
    ensures
        spec_is_request(r, method, path_segments@.map_values(|s: &str| s@), body),
{
    ApiRequest { method, path_segments: owned_segments(path_segments), body }
}

/// Copy borrowed path segments into owned ones, in order.
fn owned_segments(path_segments: &[&str]) -> (r: Vec<String>)
    ensures
        r@.len() == path_segments@.len(),
        forall|i: int|
            0 <= i < path_segments@.len() ==> (#[trigger] r@[i])@ == path_segments@[i]@,
{
    let mut out: Vec<String> = Vec::new();
    let mut i: usize = 0;
    while i < path_segments.len()
        invariant
            i <= path_segments@.len(),
            out@.len() == i,
            forall|j: int| 0 <= j < i ==> (#[trigger] out@[j])@ == path_segments@[j]@,
        decreases path_segments@.len() - i,
    {
        out.push(path_segments[i].to_owned());
        i += 1;
    }
    out
}

impl<T: Transport> ApiClient<T> {
    /// Build a client over a configured transport.
    pub fn new(transport: T) -> (c: ApiClient<T>)
        ensures
            c.spec_transport() == transport,
    {
        ApiClient { transport }
    }

    /// The single chokepoint through which every operation passes: assemble
    /// the request from its pieces, hand it to the transport, and wrap the
    /// outcome as a pipeline value.
    pub fn api_request(&self, method: Method, path_segments: &[&str], body: ReqBody)
        -> ApiResponse {
        let request = build_request(method, path_segments, body);
        ApiResponse::from(self.transport.execute(&request))
    }

    /// Issue a GET with no body.
    pub fn api_get(&self, path_segments: &[&str]) -> ApiResponse {
        self.api_request(Method::Get, path_segments, ReqBody::Empty)
    }

    /// Issue a POST with the given body.
    pub fn api_post(&self, path_segments: &[&str], body: ReqBody) -> ApiResponse {
        self.api_request(Method::Post, path_segments, body)
    }

    /// Issue a PUT with the given body.
    pub fn api_put(&self, path_segments: &[&str], body: ReqBody) -> ApiResponse {
        self.api_request(Method::Put, path_segments, body)
    }

    /// Fetch the status of the job `job_id`.
    pub fn get_job_status(&self, job_id: &str) -> ApiResult<JobStatus> {
        let r = self.api_get(&["api", "jobs", job_id]).expect_success().expect_json::<
            JobStatusResponse,
        >();
        job_status_of(r)
    }

    /// Fetch all projects.
    pub fn get_projects(&self) -> ApiResult<Vec<ApiProject>> {
        self.api_get(&["x", "projects"]).expect_success().expect_json::<Vec<ApiProject>>()
    }

    /// Query projects matching `filter`, posting it under the
    /// `{"filter": ...}` envelope with absent fields omitted.
    pub fn query_projects(&self, filter: &ApiProjectFilter) -> ApiResult<Vec<ApiProject>>
        requires
            filter.wf(),
    {
        let envelope = filter_envelope(filter);
        self.api_post(
            &["x", "projects", "query"],
            ReqBody::Json(envelope),
        ).expect_success().expect_json::<Vec<ApiProject>>()
    }

    /// Fold `files` into a multipart form with one part per file, field
    /// names `file0`, `file1`, ... in input order, short-circuiting to an
    /// I/O error the moment any file cannot be attached.
    fn build_upload_form(&self, files: &[&str]) -> (r: Result<MultipartForm, ApiError>)
        ensures
            r matches Ok(form) ==> spec_is_upload_form(
                form,
                files@.map_values(|f: &str| f@),
            ),
            r matches Err(e) ==> e matches ApiError::IO(_),
            files@.len() == 0 ==> r matches Ok(_),
    {
        let mut parts: Vec<FormPart> = Vec::new();
        let mut i: usize = 0;
        while i < files.len()
            invariant
                i <= files@.len(),
                parts@.len() == i,
                forall|j: int|
                    0 <= j < i ==> (#[trigger] parts@[j]).field_name@ == "file"@
                        + crate::body::spec_decimal(j as nat) && parts@[j].path@ == files@[j]@,
            decreases files@.len() - i,
        {
            match self.transport.attach_file(files[i]) {
                Ok(()) => {
                    let field_name = upload_field_name(i);
                    parts.push(FormPart { field_name, path: files[i].to_owned() });
                },
                Err(msg) => {
                    return Err(ApiError::IO(msg));
                },
            }
            i += 1;
        }
        Ok(MultipartForm { parts })
    }

    /// Start an analysis for `project_id` by uploading `files` as a
    /// multipart form. Any per-file attach failure returns an I/O error
    /// before any request reaches the transport.
    pub fn start_analysis(&self, project_id: u32, files: &[&str])
        -> ApiResult<ApiAnalysisJobResponse> {
        let form = match self.build_upload_form(files) {
            Ok(form) => form,
            Err(e) => {
                return Err(e);
            },
        };
        let pid = u64_to_decimal(project_id as u64);
        self.api_post(
            &["api", "projects", pid.as_str(), "analysis"],
            ReqBody::Form(form),
        ).expect_success().expect_json::<ApiAnalysisJobResponse>()
    }

    /// Rename the analysis `analysis_id` of `project_id`, discarding the
    /// response body: only transport-level completion and the success check
    /// matter to the caller.
    pub fn set_analysis_name(&self, project_id: u32, analysis_id: u32, name: &str)
        -> ApiResult<()> {
        let pid = u64_to_decimal(project_id as u64);
        let aid = u64_to_decimal(analysis_id as u64);
        let r = self.api_put(
            &["x", "projects", pid.as_str(), "analyses", aid.as_str()],
            ReqBody::Json(rename_payload(name)),
        ).expect_success().get();
        unit_of(r)
    }

    /// Repeatedly fetch the status of `job_id` until it is ready, the
    /// strategy aborts, or a status check fails.
    ///
    /// Each iteration asks the strategy for a wait only when the fetch
    /// succeeded with a non-ready status, then applies `poll_transition`,
    /// whose contract fixes the decision: an error or a ready status ends
    /// the poll with that outcome; a granted wait is performed by the
    /// transport; a declined one ends the poll with the most recently
    /// observed status.
    pub fn poll_job_completion<P: PollingStrategy<JobStatus>>(
        &self,
        job_id: &str,
        polling_strategy: P,
    ) -> ApiResult<JobStatus> {
        let mut iteration_number: usize = 0;
        while iteration_number < usize::MAX
            decreases usize::MAX - iteration_number,
        {
            let status_result = self.get_job_status(job_id);
            iteration_number = iteration_number + 1;
            let wait: Option<Duration> = match &status_result {
                Ok(status) => if status.is_ready() {
                    None
                } else {
                    polling_strategy.next_wait(iteration_number, status)
                },
                Err(_) => None,
            };
            match poll_transition(status_result, wait) {
                PollDecision::Continue(wait_dur) => self.transport.wait(wait_dur),
                PollDecision::Stop(r) => {
                    return r;
                },
            }
        }
        // Only reachable once the iteration counter is exhausted: end the
        // poll on one last observation without consulting the strategy, as
        // an abort on that observation would.
        self.get_job_status(job_id)
    }
}

} // verus!
