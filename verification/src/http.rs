//! The transport boundary: the status-and-body result of one HTTP POST, the
//! headers the client attaches to every request, and the reading of a raw
//! HTTP result as success or application-level failure. The POST itself is
//! an outside capability; nothing here performs I/O.
use vstd::prelude::*;

use crate::errors::VisionError;

verus! {

/// Response from an HTTP request: status code plus body text.
#[derive(Debug, Clone)]
pub struct HttpResponse {
    /// HTTP status code.
    pub status: u16,
    /// Response body as text.
    pub body: String,
}

impl HttpResponse {
    /// Returns `true` if the status code is in the 2xx range.
    pub fn is_success(&self) -> (r: bool)
        ensures
            r == (200 <= self.status < 300),
    {
        200 <= self.status && self.status < 300
    }
}

/// Reads a raw HTTP result: a 2xx status yields the body, any other status
/// is an application-level failure carrying the status and the body as
/// diagnostic text.
pub fn interpret_response(resp: &HttpResponse) -> (r: Result<String, VisionError>)
    ensures
        200 <= resp.status < 300 ==> (r matches Ok(b) && b@ == resp.body@),
        !(200 <= resp.status < 300) ==> (r matches Err(e) && e matches VisionError::ApiError {
            status,
            body,
        } && status == resp.status && body@ == resp.body@),
{
    if resp.is_success() {
        Ok(resp.body.clone())
    } else {
        Err(VisionError::ApiError { status: resp.status, body: resp.body.clone() })
    }
}

/// The headers attached to every request: the bearer token, the JSON
/// content type, the fixed client identification, and the language
/// preference, in that order.
pub open spec fn spec_request_headers(api_key: Seq<char>) -> Seq<(Seq<char>, Seq<char>)> {
    seq![
        ("Authorization"@, "Bearer "@ + api_key),
        ("Content-Type"@, "application/json"@),
        ("X-Title"@, "4.5V MCP Local"@),
        ("Accept-Language"@, "en-US,en"@),
    ]
}

/// Builds the headers attached to every request.
pub fn request_headers(api_key: &str) -> (r: Vec<(String, String)>)
    ensures
        r@.map_values(|h: (String, String)| (h.0@, h.1@)) == spec_request_headers(api_key@),
{
    let mut auth = "Bearer ".to_owned();
    auth.append(api_key);
    let mut out: Vec<(String, String)> = Vec::new();
    out.push(("Authorization".to_owned(), auth));
    out.push(("Content-Type".to_owned(), "application/json".to_owned()));
    out.push(("X-Title".to_owned(), "4.5V MCP Local".to_owned()));
    out.push(("Accept-Language".to_owned(), "en-US,en".to_owned()));
    proof {
        assert(out@.map_values(|h: (String, String)| (h.0@, h.1@)) =~= spec_request_headers(
            api_key@,
        ));
    }
    out
}

} // verus!
