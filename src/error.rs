use vstd::prelude::*;
use vstd::string::*;

verus! {

/// Why a download could not be started, continued or finished.
#[derive(Debug, Clone, PartialEq, Eq)]
pub enum DownloadError {
    AccessDenied(String),
    NetworkError(String),
    IoError(String),
    InvalidUrl(String),
    Cancelled,
    ResumeNotPossible(String),
    NotFound,
    Other(String),
}

/// The text under which an error is shown to the user.
pub open spec fn error_text(e: DownloadError) -> Seq<char> {
    match e {
        DownloadError::AccessDenied(m) => "Access denied: "@ + m@,
        DownloadError::NetworkError(m) => "Network error: "@ + m@,
        DownloadError::IoError(m) => "IO error: "@ + m@,
        DownloadError::InvalidUrl(m) => "Invalid URL: "@ + m@,
        DownloadError::Cancelled => "Download cancelled"@,
        DownloadError::ResumeNotPossible(m) => "Cannot resume: "@ + m@,
        DownloadError::NotFound => "Task not found"@,
        DownloadError::Other(m) => m@,
    }
}

fn prefixed(prefix: &str, m: &String) -> (r: String)
    ensures
        r@ == prefix@ + m@,
{
    let mut r = String::from_str(prefix);
    r.append(m.as_str());
    r
}

impl DownloadError {
    /// The text under which this error is shown.
    pub fn message(&self) -> (r: String)
        ensures
            r@ == error_text(*self),
    {
        match self {
            DownloadError::AccessDenied(m) => prefixed("Access denied: ", m),
            DownloadError::NetworkError(m) => prefixed("Network error: ", m),
            DownloadError::IoError(m) => prefixed("IO error: ", m),
            DownloadError::InvalidUrl(m) => prefixed("Invalid URL: ", m),
            DownloadError::Cancelled => String::from_str("Download cancelled"),
            DownloadError::ResumeNotPossible(m) => prefixed("Cannot resume: ", m),
            DownloadError::NotFound => String::from_str("Task not found"),
            DownloadError::Other(m) => m.clone(),
        }
    }
}

} // verus!
