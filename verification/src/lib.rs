//! Request validation, response shaping and prompt building for a
//! document-summarising web service.

pub mod text;
pub mod request;
pub mod file;
pub mod ids;
pub mod response;
pub mod auth;
pub mod handler;
pub mod storage;
pub mod laws;
