//! The bodies that clients send.

use vstd::prelude::*;

verus! {

/// A sign-up request.
#[derive(Clone, Debug, PartialEq, Eq)]
pub struct RegisterRequest {
    pub name: String,
    pub email: String,
    pub password: String,
}

/// A sign-in request.
#[derive(Clone, Debug, PartialEq, Eq)]
pub struct LoginRequest {
    pub email: String,
    pub password: String,
}

/// A request to summarise uploaded files, optionally with a question of the caller's own.
#[derive(Clone, Debug, PartialEq, Eq)]
pub struct SummaryRequest {
    pub files: Vec<FileSummary>,
    pub lang: String,
    pub input_text: Option<String>,
}

/// One uploaded file, as the upload reply named it.
#[derive(Clone, Debug, PartialEq, Eq)]
pub struct FileSummary {
    pub file_id: String,
    pub file_ext: String,
    pub file_name_upload: String,
}

} // verus!
