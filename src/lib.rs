//! A resumable file-download engine: which strategy fetches a URL, how a partial
//! download resumes, how a response is judged, what progress is told, and which
//! transfers are live. Network and file I/O stay with the caller, which feeds the
//! results of each step back into these functions.

pub mod kind;
pub mod text;
pub mod error;
pub mod meta;
pub mod gdrive;
pub mod transfer;
pub mod progress;
pub mod paths;
pub mod http;
pub mod manager;
pub mod storage;
