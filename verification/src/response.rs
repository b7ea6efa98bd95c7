//! The chainable pipeline around one HTTP exchange's outcome: assert
//! success, then decode a typed payload, short-circuiting on first failure.

use vstd::prelude::*;
use crate::decode::FromJsonBody;
use crate::error::{ApiError, ApiErrorMessage, ApiResult, spec_classified};

verus! {

/// One completed HTTP exchange, reduced to what the pipeline reads: the
/// status code and the full response body as text.
#[derive(Clone, Debug, PartialEq, Eq)]
pub struct HttpResponse {
    pub status: u16,
    pub body: String,
}

/// Whether a status code lies in the HTTP success range.
pub open spec fn spec_is_success_status(code: u16) -> bool {
    200 <= code < 300
}

/// Wrapper for results coming out of the client, enabling a chained way of
/// reacting to responses: `response.expect_success().expect_json()`. The
/// short-circuit rule guarantees at most one error per call, with the
/// earliest failure winning.
pub struct ApiResponse(ApiResult<HttpResponse>);

impl ApiResponse {
    /// The wrapped outcome.
    pub closed spec fn spec_result(&self) -> ApiResult<HttpResponse> {
        self.0
    }

    /// Wrap the outcome of one exchange.
    pub fn from(r: ApiResult<HttpResponse>) -> (a: ApiResponse)
        ensures
            a.spec_result() == r,
    {
        ApiResponse(r)
    }

    /// Unwrap to the raw outcome, with no success or shape checking, for
    /// callers that only care whether the exchange completed at all.
    pub fn get(self) -> (r: ApiResult<HttpResponse>)
        ensures
            r == self.spec_result(),
    {
        self.0
    }

    /// Pass an error or a success-range response through unchanged; replace
    /// a response outside the success range by a `NonSuccess` error carrying
    /// its status code and classified body.
    pub fn expect_success(self) -> (r: ApiResponse)
        ensures
            self.spec_result() matches Err(e) ==> (r.spec_result() matches Err(e2) && e2 == e),
            self.spec_result() matches Ok(resp) ==> (if spec_is_success_status(resp.status) {
                r.spec_result() matches Ok(resp2) && resp2 == resp
            } else {
                r.spec_result() matches Err(e) && (e matches ApiError::NonSuccess(code, m) && code
                    == resp.status && spec_classified(m, resp.body@))
            }),
    {
        match self.0 {
            Err(e) => ApiResponse(Err(e)),
            Ok(resp) => {
                if 200 <= resp.status && resp.status < 300 {
                    ApiResponse(Ok(resp))
                } else {
                    let m = ApiErrorMessage::from_body(resp.body.as_str());
                    ApiResponse(Err(ApiError::NonSuccess(resp.status, m)))
                }
            },
        }
    }

    /// Propagate an error; otherwise decode the response body as `T`,
    /// turning a decode failure into a `Protocol` error.
    pub fn expect_json<T: FromJsonBody>(self) -> (r: ApiResult<T>)
        ensures
            self.spec_result() matches Err(e) ==> (r matches Err(e2) && e2 == e),
            self.spec_result() matches Ok(resp) ==> (if T::spec_decodable(resp.body@) {
                r matches Ok(v) && v.spec_is_decode_of(resp.body@)
            } else {
                r matches Err(e) && e matches ApiError::Protocol(_)
            }),
    {
        match self.0 {
            Err(e) => Err(e),
            Ok(resp) => match T::decode_json(resp.body.as_str()) {
                Some(v) => Ok(v),
                None => Err(
                    ApiError::Protocol(
                        "response body failed to decode as the expected shape".to_owned(),
                    ),
                ),
            },
        }
    }
}

} // verus!
