//! Classification of one HTTP response: non-success statuses become
//! errors carrying the raw body text; success responses yield the result
//! document from the body (RPC and upload styles) or from a required
//! response header (download style).

use vstd::prelude::*;

use crate::decimal::all_digits;
use crate::decimal::dec_val;
use crate::decimal::parse_u64_dec;
use crate::types::Error;

verus! {

/// The structured result of one successful exchange. For download-style
/// calls the payload byte stream travels outside this type, alongside it.
#[derive(Debug, Clone, PartialEq, Eq)]
pub struct HttpRequestResultRaw {
    /// The JSON result document.
    pub result_json: String,
    /// The value of the content-length header, when the response carried
    /// one and it parsed as an unsigned integer.
    pub content_length: Option<u64>,
}

/// Whether an HTTP status code counts as success.
pub open spec fn is_success_code(code: u16) -> bool {
    200 <= code < 300
}

/// Classify the status of a response. A non-success status becomes an
/// error carrying the code, the status text and the raw body text,
/// unchanged and uninterpreted.
pub fn check_status(code: u16, status: String, json: String) -> (r: Result<(), Error>)
    ensures
        r is Ok <==> is_success_code(code),
        r matches Err(e) ==> e matches Error::UnexpectedHttpError {
            code: ec,
            status: es,
            json: ej,
        } && ec == code && es@ == status@ && ej@ == json@,
{
    if 200 <= code && code < 300 {
        Ok(())
    } else {
        Err(Error::UnexpectedHttpError { code, status, json })
    }
}

/// Wrap the result document read from a success response body (RPC and
/// upload styles); such a response carries no content length and no
/// payload stream.
pub fn body_result(result_json: String) -> (r: HttpRequestResultRaw)
    ensures
        r.result_json@ == result_json@,
        r.content_length is None,
{
    HttpRequestResultRaw { result_json, content_length: None }
}

/// Whether a content-length header value is a well-formed unsigned
/// decimal that fits in a `u64`.
pub open spec fn content_length_ok(cl: Seq<char>) -> bool {
    cl.len() > 0 && all_digits(cl) && dec_val(cl) <= u64::MAX
}

/// Interpret the headers of a success download-style response. The result
/// document must be present in its dedicated header; a missing result
/// header, or a content-length header that does not parse as an unsigned
/// integer, is a protocol violation.
pub fn download_result(result_header: Option<String>, content_length_header: Option<String>) -> (r:
    Result<HttpRequestResultRaw, Error>)
    ensures
        result_header is None ==> (r matches Err(e) && (e matches Error::UnexpectedResponse(m)
            && m@ == "missing Dropbox-API-Result header"@)),
        result_header matches Some(h) ==> match content_length_header {
            None => r matches Ok(res) && (res.result_json@ == h@ && res.content_length is None),
            Some(cl) => if content_length_ok(cl@) {
                r matches Ok(res) && (res.result_json@ == h@ && (res.content_length matches Some(n)
                    && n == dec_val(cl@)))
            } else {
                r matches Err(e) && (e matches Error::UnexpectedResponse(m) && m@
                    == "invalid Content-Length header"@)
            },
        },
{
    let result_json = match result_header {
        Some(h) => h,
        None => {
            return Err(Error::UnexpectedResponse("missing Dropbox-API-Result header".to_owned()));
        },
    };
    let content_length = match content_length_header {
        Some(cl) => match parse_u64_dec(cl.as_str()) {
            Some(n) => Some(n),
            None => {
                return Err(Error::UnexpectedResponse("invalid Content-Length header".to_owned()));
            },
        },
        None => None,
    };
    Ok(HttpRequestResultRaw { result_json, content_length })
}

} // verus!
