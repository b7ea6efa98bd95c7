//! The typed payloads the service returns, and their decoding from JSON
//! response bodies.

use vstd::prelude::*;
use crate::json::{
    parse_json, get_field, value_as_str, value_as_u64, value_as_array, value_is_null,
    spec_json_of, spec_field_of, spec_str_of, spec_u64_of, spec_elements_of, spec_is_null,
};
use crate::status::{JobStatus, spec_status_of_wire, spec_wire_name, lemma_wire_round_trip};

verus! {

/// The string payload of object member `key`, when `v` is an object whose
/// member `key` is a string.
pub open spec fn spec_str_member(v: serde_json::Value, key: Seq<char>) -> Option<Seq<char>> {
    match spec_field_of(v, key) {
        Some(f) => spec_str_of(f),
        None => None,
    }
}

/// The numeric payload of object member `key`, when `v` is an object whose
/// member `key` is an unsigned integer in `u64` range.
pub open spec fn spec_u64_member(v: serde_json::Value, key: Seq<char>) -> Option<u64> {
    match spec_field_of(v, key) {
        Some(f) => spec_u64_of(f),
        None => None,
    }
}

/// Look the string member `key` up in `v`.
fn get_str_member(v: &serde_json::Value, key: &str) -> (r: Option<String>)
    ensures
        match r {
            Some(s) => spec_str_member(*v, key@) == Some(s@),
            None => spec_str_member(*v, key@) is None,
        },
{
    match get_field(v, key) {
        Some(f) => match value_as_str(f) {
            Some(s) => Some(s.to_owned()),
            None => None,
        },
        None => None,
    }
}

/// Look the numeric member `key` up in `v`.
fn get_u64_member(v: &serde_json::Value, key: &str) -> (r: Option<u64>)
    ensures
        r == spec_u64_member(*v, key@),
{
    match get_field(v, key) {
        Some(f) => value_as_u64(f),
        None => None,
    }
}

/// A payload type that the pipeline can decode from a JSON response body.
pub trait FromJsonBody: Sized {
    /// Whether `body` has this type's shape.
    spec fn spec_decodable(body: Seq<char>) -> bool;

    /// Whether `self` is the value that `body` decodes to.
    spec fn spec_is_decode_of(&self, body: Seq<char>) -> bool;

    /// Decode `body`; `None` exactly when it does not have this type's shape.
    fn decode_json(body: &str) -> (r: Option<Self>)
        ensures
            r is Some <==> Self::spec_decodable(body@),
            r matches Some(v) ==> v.spec_is_decode_of(body@),
    ;
}

/// The job-status resource: `{ "jobId": <string>, "status": <wire status> }`.
#[derive(Clone, Debug, PartialEq, Eq)]
pub struct JobStatusResponse {
    /// ID of the requested job; the same id that was asked about.
    pub job_id: String,
    /// The observed job status.
    pub status: JobStatus,
}

impl FromJsonBody for JobStatusResponse {
    open spec fn spec_decodable(body: Seq<char>) -> bool {
        match spec_json_of(body) {
            Some(v) => spec_str_member(v, "jobId"@) is Some && (spec_str_member(v, "status"@)
                matches Some(w) && spec_status_of_wire(w) is Some),
            None => false,
        }
    }

    open spec fn spec_is_decode_of(&self, body: Seq<char>) -> bool {
        match spec_json_of(body) {
            Some(v) => spec_str_member(v, "jobId"@) == Some(self.job_id@) && (spec_str_member(
                v,
                "status"@,
            ) matches Some(w) && spec_status_of_wire(w) == Some(self.status)),
            None => false,
        }
    }

    fn decode_json(body: &str) -> (r: Option<Self>) {
        match parse_json(body) {
            Some(v) => {
                let job_id = get_str_member(&v, "jobId");
                let wire = get_str_member(&v, "status");
                match (job_id, wire) {
                    (Some(id), Some(w)) => match JobStatus::from_wire(w.as_str()) {
                        Some(st) => Some(JobStatusResponse { job_id: id, status: st }),
                        None => None,
                    },
                    _ => None,
                }
            },
            None => None,
        }
    }
}

/// A job-status document written for the response `{ job_id: j, status: s }`
/// — an object whose `jobId` member is `j` and whose `status` member is the
/// wire name of `s` — decodes, and decodes to that identical response.
pub proof fn lemma_job_status_decode_round_trip(body: Seq<char>, j: Seq<char>, s: JobStatus)
    requires
        spec_json_of(body) matches Some(v) && spec_str_member(v, "jobId"@) == Some(j)
            && spec_str_member(v, "status"@) == Some(spec_wire_name(s)),
    ensures
        JobStatusResponse::spec_decodable(body),
        forall|r: JobStatusResponse|
            #[trigger] r.spec_is_decode_of(body) ==> r.job_id@ == j && r.status == s,
{
    lemma_wire_round_trip(s);
}

/// The response to successfully starting an analysis:
/// `{ "analysisId": <number>, "jobId": <string> }`. It correlates the
/// server-assigned analysis with the job used to poll for completion.
#[derive(Clone, Debug, PartialEq, Eq)]
pub struct ApiAnalysisJobResponse {
    pub analysis_id: u32,
    pub job_id: String,
}

impl FromJsonBody for ApiAnalysisJobResponse {
    open spec fn spec_decodable(body: Seq<char>) -> bool {
        match spec_json_of(body) {
            Some(v) => (spec_u64_member(v, "analysisId"@) matches Some(n) && n <= u32::MAX)
                && spec_str_member(v, "jobId"@) is Some,
            None => false,
        }
    }

    open spec fn spec_is_decode_of(&self, body: Seq<char>) -> bool {
        match spec_json_of(body) {
            Some(v) => spec_u64_member(v, "analysisId"@) == Some(self.analysis_id as u64)
                && spec_str_member(v, "jobId"@) == Some(self.job_id@),
            None => false,
        }
    }

    fn decode_json(body: &str) -> (r: Option<Self>) {
        match parse_json(body) {
            Some(v) => {
                let analysis_id = get_u64_member(&v, "analysisId");
                let job_id = get_str_member(&v, "jobId");
                match (analysis_id, job_id) {
                    (Some(n), Some(id)) => if n <= u32::MAX as u64 {
                        Some(ApiAnalysisJobResponse { analysis_id: n as u32, job_id: id })
                    } else {
                        None
                    },
                    _ => None,
                }
            },
            None => None,
        }
    }
}

/// A project resource:
/// `{ "id": <number>, "name": <string>, "parentId": <number|null> }`.
/// The optional `parent_id` is a weak reference by id to a parent project.
#[derive(Clone, Debug, PartialEq, Eq)]
pub struct ApiProject {
    pub id: u32,
    pub name: String,
    pub parent_id: Option<u32>,
}

/// Whether the `parentId` member of `v` is absent, null, or a number in
/// `u32` range.
pub open spec fn spec_parent_decodable(v: serde_json::Value) -> bool {
    match spec_field_of(v, "parentId"@) {
        Some(p) => spec_is_null(p) || (spec_u64_of(p) matches Some(n) && n <= u32::MAX),
        None => true,
    }
}

/// The parent project id `v` carries: `None` for an absent or null member.
pub open spec fn spec_parent_of(v: serde_json::Value) -> Option<u32> {
    match spec_field_of(v, "parentId"@) {
        Some(p) => if spec_is_null(p) {
            None
        } else {
            match spec_u64_of(p) {
                Some(n) => if n <= u32::MAX {
                    Some(n as u32)
                } else {
                    None
                },
                None => None,
            }
        },
        None => None,
    }
}

/// Whether the JSON value `v` has the project shape.
pub open spec fn spec_project_decodable(v: serde_json::Value) -> bool {
    (spec_u64_member(v, "id"@) matches Some(n) && n <= u32::MAX) && spec_str_member(v, "name"@)
        is Some && spec_parent_decodable(v)
}

impl ApiProject {
    /// Whether `self` holds exactly the fields that the JSON value `v` carries.
    pub open spec fn spec_is_project_of(&self, v: serde_json::Value) -> bool {
        spec_u64_member(v, "id"@) == Some(self.id as u64) && spec_str_member(v, "name"@) == Some(
            self.name@,
        ) && self.parent_id == spec_parent_of(v)
    }
}

/// Decode one element of a project listing.
fn decode_project(v: &serde_json::Value) -> (r: Option<ApiProject>)
    ensures
        r is Some <==> spec_project_decodable(*v),
        r matches Some(p) ==> p.spec_is_project_of(*v),
{
    let id = get_u64_member(v, "id");
    let name = get_str_member(v, "name");
    match (id, name) {
        (Some(n), Some(nm)) => {
            if n > u32::MAX as u64 {
                return None;
            }
            match get_field(v, "parentId") {
                Some(p) => {
                    if value_is_null(p) {
                        Some(ApiProject { id: n as u32, name: nm, parent_id: None })
                    } else {
                        match value_as_u64(p) {
                            Some(pn) => if pn <= u32::MAX as u64 {
                                Some(
                                    ApiProject {
                                        id: n as u32,
                                        name: nm,
                                        parent_id: Some(pn as u32),
                                    },
                                )
                            } else {
                                None
                            },
                            None => None,
                        }
                    }
                },
                None => Some(ApiProject { id: n as u32, name: nm, parent_id: None }),
            }
        },
        _ => None,
    }
}

impl FromJsonBody for Vec<ApiProject> {
    open spec fn spec_decodable(body: Seq<char>) -> bool {
        match spec_json_of(body) {
            Some(v) => spec_elements_of(v) matches Some(es) && forall|i: int|
                0 <= i < es.len() ==> spec_project_decodable(#[trigger] es[i]),
            None => false,
        }
    }

    open spec fn spec_is_decode_of(&self, body: Seq<char>) -> bool {
        match spec_json_of(body) {
            Some(v) => spec_elements_of(v) matches Some(es) && self@.len() == es.len() && forall|
                i: int,
            |
                0 <= i < es.len() ==> (#[trigger] self@[i]).spec_is_project_of(es[i]),
            None => false,
        }
    }

    fn decode_json(body: &str) -> (r: Option<Self>) {
        match parse_json(body) {
            Some(v) => match value_as_array(&v) {
                Some(arr) => {
                    let mut out: Vec<ApiProject> = Vec::new();
                    let mut i: usize = 0;
                    while i < arr.len()
                        invariant
                            i <= arr.len(),
                            spec_json_of(body@) == Some(v),
                            spec_elements_of(v) == Some(arr@),
                            out@.len() == i,
                            forall|j: int| 0 <= j < i ==> spec_project_decodable(#[trigger] arr@[j]),
                            forall|j: int|
                                0 <= j < i ==> (#[trigger] out@[j]).spec_is_project_of(arr@[j]),
                        decreases arr.len() - i,
                    {
                        match decode_project(&arr[i]) {
                            Some(p) => out.push(p),
                            None => {
                                proof {
                                    assert(!spec_project_decodable(arr@[i as int]));
                                    assert(spec_elements_of(v)->0 == arr@);
                                }
                                return None;
                            },
                        }
                        i += 1;
                    }
                    Some(out)
                },
                None => None,
            },
            None => None,
        }
    }
}

} // verus!
