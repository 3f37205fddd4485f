//! What each endpoint answers, given the request and what the services
//! reported. The server runs the services and sends the replies.

use vstd::prelude::*;
use crate::auth::{Login, is_email, valid_email};
use crate::file::{is_supported_language, stored_path, stored_file_path, upload_dir, unsupported_language_message};
use crate::ids::{is_file_id, is_hyphenated_uuid, without_hyphens, new_file_id};
use crate::request::{LoginRequest, RegisterRequest, SummaryRequest};
use crate::response::{ApiResponse, ResponseBody, LoginResponse, RegisterResponse, UploadResponse, SummarizeResponse, error_resp, is_error_resp};
use crate::text::{extension_of, file_extension, has_substring, contains_str, str_equals};

verus! {

/// `POST /auth/login`: the service's error is answered 400; a sign-in is
/// answered 200 with the account's name, the e-mail as sent, and the token.
/// The address is not checked for an `@` here: that check's reply is never sent.
pub fn login_reply(req: &LoginRequest, result: Result<Login, String>) -> (r: ApiResponse)
    ensures
        match result {
            Ok(l) => {
                &&& r.status == 200
                &&& r.body matches ResponseBody::Login(b)
                &&& b.name@ == l.name@
                &&& b.email@ == req.email@
                &&& b.token@ == l.token@
            },
            Err(e) => is_error_resp(r, e@, 400),
        },
{
    match result {
        Ok(res) => ApiResponse {
            status: 200,
            body: ResponseBody::Login(
                LoginResponse { name: res.name, email: req.email.clone(), token: res.token },
            ),
        },
        Err(e) => error_resp(e.as_str(), 400),
    }
}

/// The reply to an e-mail address without an `@`.
pub open spec fn invalid_email_text() -> Seq<char> {
    "invalid email format"@
}

/// `POST /auth/register`, before the account is stored: an address without
/// an `@` is answered 400 and nothing is stored.
pub fn register_check(req: &RegisterRequest) -> (r: Option<ApiResponse>)
    ensures
        is_email(req.email@) <==> r is None,
        r matches Some(resp) ==> is_error_resp(resp, invalid_email_text(), 400),
{
    if !valid_email(req.email.as_str()) {
        Some(error_resp("invalid email format", 400))
    } else {
        None
    }
}

/// The status a failed sign-up is answered with: 400 when the message says
/// the e-mail is taken, 500 otherwise.
pub open spec fn register_failure_status(message: Seq<char>) -> u16 {
    if has_substring(message, "email already exist"@) {
        400
    } else {
        500
    }
}

/// The message of a successful sign-up.
pub open spec fn registered_text() -> Seq<char> {
    "user registered successfully"@
}

/// `POST /auth/register`, after the store: 201 with the name and e-mail as
/// sent; a failure is answered with its message, 400 or 500.
pub fn register_reply(req: &RegisterRequest, result: Result<(), String>) -> (r: ApiResponse)
    ensures
        match result {
            Ok(_) => {
                &&& r.status == 201
                &&& r.body matches ResponseBody::Register(b)
                &&& b.name@ == req.name@
                &&& b.email@ == req.email@
                &&& b.message@ == registered_text()
            },
            Err(e) => is_error_resp(r, e@, register_failure_status(e@)),
        },
{
    match result {
        Ok(_) => ApiResponse {
            status: 201,
            body: ResponseBody::Register(
                RegisterResponse {
                    name: req.name.clone(),
                    email: req.email.clone(),
                    message: String::from_str("user registered successfully"),
                },
            ),
        },
        Err(e) => {
            if contains_str(e.as_str(), "email already exist") {
                error_resp(e.as_str(), 400)
            } else {
                error_resp(e.as_str(), 500)
            }
        },
    }
}

/// The extensions an upload may have.
pub open spec fn is_supported_extension(ext: Seq<char>) -> bool {
    ext == "pdf"@ || ext == "docx"@ || ext == "txt"@
}

/// The reply to an upload of an unsupported kind.
pub open spec fn unsupported_extension_text() -> Seq<char> {
    "unsupport file extention, only allow (pdf, docx, txt)"@
}

/// An accepted upload: the id it is stored under, its extension, the name it
/// was sent with, and the path it is written to.
#[derive(Clone, Debug, PartialEq, Eq)]
pub struct UploadPlan {
    pub file_id: String,
    pub file_ext: String,
    pub file_name_upload: String,
    pub filepath: String,
}

/// The name an upload was sent with; the empty name when it had none.
pub open spec fn sent_name(file_name: Option<String>) -> Seq<char> {
    match file_name {
        Some(n) => n@,
        None => Seq::empty(),
    }
}

/// `POST /file/upload`, for the first part of the form: its extension must be
/// pdf, docx or txt (in any case), else 400. An accepted file gets a fresh id
/// and is written to `./upload/{id}.{extension}`.
pub fn plan_upload(file_name: Option<String>) -> (r: Result<UploadPlan, ApiResponse>)
    ensures
        is_supported_extension(extension_of(sent_name(file_name))) <==> r is Ok,
        r matches Ok(p) ==> {
            &&& p.file_ext@ == extension_of(sent_name(file_name))
            &&& p.file_name_upload@ == sent_name(file_name)
            &&& is_file_id(p.file_id@)
            &&& exists|u: Seq<char>| is_hyphenated_uuid(u) && p.file_id@ == without_hyphens(u)
            &&& p.filepath@ == stored_path(upload_dir(), p.file_id@, p.file_ext@)
        },
        r matches Err(resp) ==> is_error_resp(resp, unsupported_extension_text(), 400),
{
    let name = match file_name {
        Some(n) => n,
        None => String::new(),
    };
    let ext = file_extension(name.as_str());
    plan_upload_with_extension(name, ext)
}

/// `POST /file/upload` once the extension is read: `ext` must be pdf, docx or
/// txt, else 400. An accepted file gets a fresh id and is written to
/// `./upload/{id}.{ext}`.
pub fn plan_upload_with_extension(file_name: String, ext: String) -> (r: Result<UploadPlan, ApiResponse>)
    ensures
        is_supported_extension(ext@) <==> r is Ok,
        r matches Ok(p) ==> {
            &&& p.file_ext@ == ext@
            &&& p.file_name_upload@ == file_name@
            &&& is_file_id(p.file_id@)
            &&& exists|u: Seq<char>| is_hyphenated_uuid(u) && p.file_id@ == without_hyphens(u)
            &&& p.filepath@ == stored_path(upload_dir(), p.file_id@, ext@)
        },
        r matches Err(resp) ==> is_error_resp(resp, unsupported_extension_text(), 400),
{
    if !(str_equals(ext.as_str(), "pdf") || str_equals(ext.as_str(), "docx") || str_equals(
        ext.as_str(),
        "txt",
    )) {
        return Err(error_resp("unsupport file extention, only allow (pdf, docx, txt)", 400));
    }
    let file_id = new_file_id();
    let filepath = stored_file_path("upload", file_id.as_str(), ext.as_str());
    Ok(UploadPlan { file_id, file_ext: ext, file_name_upload: file_name, filepath })
}

/// `POST /file/upload`, after the write: 200 with the id, extension and sent
/// name; a failed write is answered 500 with its message.
pub fn upload_reply(plan: &UploadPlan, stored: Result<(), String>) -> (r: ApiResponse)
    ensures
        match stored {
            Ok(_) => {
                &&& r.status == 200
                &&& r.body matches ResponseBody::Upload(b)
                &&& b.file_id@ == plan.file_id@
                &&& b.file_ext@ == plan.file_ext@
                &&& b.file_name_upload@ == plan.file_name_upload@
            },
            Err(e) => is_error_resp(r, e@, 500),
        },
{
    match stored {
        Ok(_) => ApiResponse {
            status: 200,
            body: ResponseBody::Upload(
                UploadResponse {
                    file_id: plan.file_id.clone(),
                    file_ext: plan.file_ext.clone(),
                    file_name_upload: plan.file_name_upload.clone(),
                },
            ),
        },
        Err(e) => error_resp(e.as_str(), 500),
    }
}

/// `POST /file/upload` when a part of the form could not be read: 500.
pub fn upload_read_error(detail: &str) -> (r: ApiResponse)
    ensures
        is_error_resp(r, "Error reading file: "@ + detail@, 500),
{
    let mut m = String::from_str("Error reading file: ");
    m.append(detail);
    error_resp(m.as_str(), 500)
}

/// `POST /file/upload` with no part in the form: 400.
pub fn upload_missing() -> (r: ApiResponse)
    ensures
        is_error_resp(r, "invalid file upload"@, 400),
{
    error_resp("invalid file upload", 400)
}

/// A summary request that passes the check: it names at least one file and
/// asks for `id` or `en`.
pub open spec fn summary_request_accepted(req: SummaryRequest) -> bool {
    req.files@.len() > 0 && is_supported_language(req.lang@)
}

/// `POST /file/summarize`, before any work: no files, or a language other
/// than `id` and `en`, is answered 400.
pub fn summarize_check(req: &SummaryRequest) -> (r: Option<ApiResponse>)
    ensures
        summary_request_accepted(*req) <==> r is None,
        req.files@.len() == 0 ==> (r matches Some(resp) && is_error_resp(resp, "no file to summarize"@, 400)),
        req.files@.len() > 0 && !is_supported_language(req.lang@) ==> (r matches Some(resp)
            && is_error_resp(resp, unsupported_language_message(), 400)),
{
    if req.files.len() == 0 {
        return Some(error_resp("no file to summarize", 400));
    }
    if !str_equals(req.lang.as_str(), "id") && !str_equals(req.lang.as_str(), "en") {
        return Some(error_resp("unsupported language, only allow language \"id\" and \"en\"", 400));
    }
    None
}

/// `POST /file/summarize`, after the work: 200 with the summary; a failure is
/// answered 500 with its message.
pub fn summarize_reply(result: Result<String, String>) -> (r: ApiResponse)
    ensures
        match result {
            Ok(s) => {
                &&& r.status == 200
                &&& r.body matches ResponseBody::Summarize(b)
                &&& b.summary@ == s@
                &&& b.content@ == Seq::<char>::empty()
            },
            Err(e) => is_error_resp(r, e@, 500),
        },
{
    match result {
        Ok(summary) => ApiResponse {
            status: 200,
            body: ResponseBody::Summarize(SummarizeResponse { summary, content: String::new() }),
        },
        Err(e) => error_resp(e.as_str(), 500),
    }
}

/// The message a request with a bad bearer token is refused with.
pub open spec fn bad_token_text() -> Seq<char> {
    "Invalid or expired token"@
}

/// The bearer-token guard of `/file`: a valid token lets the request through;
/// any other is refused (401) with this message.
pub fn bearer_refusal(token_valid: bool) -> (r: Option<String>)
    ensures
        token_valid <==> r is None,
        r matches Some(m) ==> m@ == bad_token_text(),
{
    if token_valid {
        None
    } else {
        Some(String::from_str("Invalid or expired token"))
    }
}

} // verus!
