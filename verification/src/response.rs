//! The replies that the service sends: a status code and a JSON body.

use vstd::prelude::*;

verus! {

/// Reply to a successful sign-up.
#[derive(Clone, Debug, PartialEq, Eq)]
pub struct RegisterResponse {
    pub name: String,
    pub email: String,
    pub message: String,
}

/// Reply to a successful sign-in.
#[derive(Clone, Debug, PartialEq, Eq)]
pub struct LoginResponse {
    pub name: String,
    pub email: String,
    pub token: String,
}

/// Reply to a stored upload.
#[derive(Clone, Debug, PartialEq, Eq)]
pub struct UploadResponse {
    pub file_id: String,
    pub file_ext: String,
    pub file_name_upload: String,
}

/// Reply to a summary request.
#[derive(Clone, Debug, PartialEq, Eq)]
pub struct SummarizeResponse {
    pub summary: String,
    pub content: String,
}

/// The body of every error reply.
#[derive(Clone, Debug, PartialEq, Eq)]
pub struct Error {
    pub message: String,
    pub status: u16,
}

/// Reply to `GET /ping`.
#[derive(Clone, Debug, PartialEq, Eq)]
pub struct Ping {
    pub message: String,
}

/// Reply to `GET /`.
#[derive(Clone, Debug, PartialEq, Eq)]
pub struct Status {
    pub name: String,
    pub status: String,
}

/// The JSON body of a reply.
#[derive(Clone, Debug, PartialEq, Eq)]
pub enum ResponseBody {
    Error(Error),
    Register(RegisterResponse),
    Login(LoginResponse),
    Upload(UploadResponse),
    Summarize(SummarizeResponse),
    Ping(Ping),
    Status(Status),
}

/// A reply: its HTTP status code and its body.
#[derive(Clone, Debug, PartialEq, Eq)]
pub struct ApiResponse {
    pub status: u16,
    pub body: ResponseBody,
}

/// The HTTP status that an error reply asked for with `status` goes out with:
/// the status itself when it is one of 400, 401, 403, 404 and 500, else 400.
pub open spec fn http_status_for(status: u16) -> u16 {
    if status == 400 || status == 401 || status == 403 || status == 404 || status == 500 {
        status
    } else {
        400
    }
}

/// `r` is the error reply with this HTTP status, message and body status.
pub open spec fn is_error_reply(r: ApiResponse, http: u16, message: Seq<char>, status: u16) -> bool {
    &&& r.status == http
    &&& r.body matches ResponseBody::Error(e)
    &&& e.message@ == message
    &&& e.status == status
}

/// `r` is what `error_resp` gives for this message and status.
pub open spec fn is_error_resp(r: ApiResponse, message: Seq<char>, status: u16) -> bool {
    is_error_reply(r, http_status_for(status), message, status)
}

/// An error reply: the body carries `msg` and `status` as given; the HTTP
/// status is `status` for 400, 401, 403, 404 and 500, and 400 for any other.
pub fn error_resp(msg: &str, status: u16) -> (r: ApiResponse)
    ensures
        is_error_resp(r, msg@, status),
{
    let body = ResponseBody::Error(Error { message: String::from_str(msg), status });
    let http = match status {
        400 => 400,
        401 => 401,
        403 => 403,
        404 => 404,
        500 => 500,
        _ => 400,
    };
    ApiResponse { status: http, body }
}

/// The service's name, as `GET /` reports it.
pub open spec fn service_name() -> Seq<char> {
    "AI Summarizer API"@
}

/// `GET /`: 200 with the service's name and status `OK`.
pub fn root() -> (r: ApiResponse)
    ensures
        r.status == 200,
        r.body matches ResponseBody::Status(s) && s.name@ == service_name() && s.status@ == "OK"@,
{
    ApiResponse {
        status: 200,
        body: ResponseBody::Status(
            Status { name: String::from_str("AI Summarizer API"), status: String::from_str("OK") },
        ),
    }
}

/// `GET /ping`: 200 with the message `pong`.
pub fn ping() -> (r: ApiResponse)
    ensures
        r.status == 200,
        r.body matches ResponseBody::Ping(p) && p.message@ == "pong"@,
{
    ApiResponse { status: 200, body: ResponseBody::Ping(Ping { message: String::from_str("pong") }) }
}

} // verus!
