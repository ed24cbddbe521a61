use vstd::prelude::*;
use crate::kind::DownloadType;

verus! {

/// What analysing a URL yields: how to fetch it and from where.
#[derive(Debug, Clone)]
pub struct DownloadMeta {
    pub download_type: DownloadType,
    pub direct_url: String,
    pub original_url: Option<String>,
    pub suggested_filename: Option<String>,
}

/// The view of an optional string: its characters, if any.
pub open spec fn opt_view(o: Option<String>) -> Option<Seq<char>> {
    match o {
        Some(s) => Some(s@),
        None => None,
    }
}

} // verus!
