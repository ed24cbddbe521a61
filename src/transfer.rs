use vstd::prelude::*;
use vstd::string::*;
use crate::error::DownloadError;
use crate::text::{contains, contains_seq, decimal_u64, parse_u64};

verus! {

/// How to ask for the bytes, given what already sits in the staging file.
#[derive(Debug, Clone, Copy, PartialEq, Eq, Structural)]
pub struct FetchPlan {
    /// `Some(d)`: ask for the bytes from offset `d` on and append them.
    pub range_start: Option<u64>,
    /// Empty the staging file before the new stream begins.
    pub truncate: bool,
}

/// What to do with a response.
#[derive(Debug, Clone, PartialEq, Eq)]
pub enum Verdict {
    /// Stream the body into the staging file, emptied first if `truncate`; `offset`
    /// bytes of the resource are already there.
    Write { truncate: bool, offset: u64 },
    /// A markup page came in place of the file: read its body and fail with
    /// `GDriveDownloader::markup_error`.
    InspectMarkup,
    /// Fail the transfer; the staging file is left as it is.
    Reject(DownloadError),
}

/// Resume from `staged` bytes where the server serves ranges; otherwise start over,
/// emptying a staging file that holds anything.
pub open spec fn plan_of(staged: u64, accept_ranges: bool) -> FetchPlan {
    if staged > 0 && accept_ranges {
        FetchPlan { range_start: Some(staged), truncate: false }
    } else {
        FetchPlan { range_start: None, truncate: staged > 0 }
    }
}

/// Plans the request for a staging file that holds `staged` bytes.
pub fn plan_fetch(staged: u64, accept_ranges: bool) -> (r: FetchPlan)
    ensures
        r == plan_of(staged, accept_ranges),
{
    if staged > 0 && accept_ranges {
        FetchPlan { range_start: Some(staged), truncate: false }
    } else {
        FetchPlan { range_start: None, truncate: staged > 0 }
    }
}

/// The status line of an HTTP status code: the code and its reason phrase.
pub uninterp spec fn status_display(code: u16) -> Seq<char>;

/// Relies on reqwest's `StatusCode::from_u16` and its `Display`: the code followed by its
/// canonical reason, a function of the code alone (a code that `from_u16` refuses is
/// written by itself).
#[verifier::external_body]
fn describe_status(code: u16) -> (r: String)
    ensures
        r@ == status_display(code),
{
    match reqwest::StatusCode::from_u16(code) {
        Ok(s) => s.to_string(),
        Err(_) => code.to_string(),
    }
}

pub open spec fn range_rejected_text() -> Seq<char> {
    "File has changed on server. Cannot resume download."@
}

pub open spec fn forbidden_text() -> Seq<char> {
    "Access denied. This may be a private file."@
}

pub open spec fn server_status_text(code: u16) -> Seq<char> {
    "Server returned: "@ + status_display(code)
}

/// A declared content type that names markup.
pub open spec fn is_markup_type(content_type: Option<Seq<char>>) -> bool {
    match content_type {
        Some(c) => contains_seq(c, "text/html"@),
        None => false,
    }
}

/// The verdict on a response, `None` where it is rejected (what the rejection carries is
/// stated apart).
pub open spec fn verdict_kind(plan: FetchPlan, status: u16, markup: bool) -> Option<Verdict> {
    if status == 200 && markup {
        Some(Verdict::InspectMarkup)
    } else if status == 200 {
        Some(Verdict::Write { truncate: plan.range_start.is_some(), offset: 0 })
    } else if status == 206 {
        Some(
            Verdict::Write {
                truncate: false,
                offset: match plan.range_start {
                    Some(d) => d,
                    None => 0,
                },
            },
        )
    } else {
        None
    }
}

/// Judges a response to the request that `plan` describes. With `binary_only`, a markup
/// page received with success is not taken for the file.
pub fn check_response(plan: &FetchPlan, status: u16, content_type: Option<&str>, binary_only: bool) -> (r: Verdict)
    ensures
        ({
            let markup = binary_only && is_markup_type(
                match content_type {
                    Some(c) => Some(c@),
                    None => None,
                },
            );
            match verdict_kind(*plan, status, markup) {
                Some(k) => r == k,
                None => r is Reject,
            }
        }),
        status == 416 ==> r == Verdict::Reject(DownloadError::ResumeNotPossible(r->Reject_0->ResumeNotPossible_0))
            && r->Reject_0->ResumeNotPossible_0@ == range_rejected_text(),
        status == 403 ==> r == Verdict::Reject(DownloadError::AccessDenied(r->Reject_0->AccessDenied_0))
            && r->Reject_0->AccessDenied_0@ == forbidden_text(),
        status != 416 && status != 403 && status != 200 && status != 206 ==> r == Verdict::Reject(
            DownloadError::NetworkError(r->Reject_0->NetworkError_0),
        ) && r->Reject_0->NetworkError_0@ == server_status_text(status),
{
    if status == 416 {
        return Verdict::Reject(DownloadError::ResumeNotPossible(String::from_str("File has changed on server. Cannot resume download.")));
    }
    if status == 403 {
        return Verdict::Reject(DownloadError::AccessDenied(String::from_str("Access denied. This may be a private file.")));
    }
    if status == 200 {
        let markup = match content_type {
            Some(c) => binary_only && contains(c, "text/html"),
            None => false,
        };
        if markup {
            return Verdict::InspectMarkup;
        }
        return Verdict::Write { truncate: plan.range_start.is_some(), offset: 0 };
    }
    if status == 206 {
        let offset = match plan.range_start {
            Some(d) => d,
            None => 0,
        };
        return Verdict::Write { truncate: false, offset };
    }
    let mut m = String::from_str("Server returned: ");
    let line = describe_status(status);
    m.append(line.as_str());
    Verdict::Reject(DownloadError::NetworkError(m))
}

/// The full size of the resource: the length that the response declares plus the bytes
/// already on disk; failing that, the size that the probe found.
pub open spec fn total_of(content_length: Option<Seq<char>>, offset: u64, probed: Option<u64>) -> Option<u64> {
    match content_length {
        Some(c) => match decimal_u64(c) {
            Some(n) => if n + offset <= u64::MAX {
                Some((n + offset) as u64)
            } else {
                None
            },
            None => probed,
        },
        None => probed,
    }
}

/// The full size of the resource, when known.
pub fn total_size(content_length: Option<&str>, offset: u64, probed: Option<u64>) -> (r: Option<u64>)
    ensures
        r == total_of(
            match content_length {
                Some(c) => Some(c@),
                None => None,
            },
            offset,
            probed,
        ),
{
    match content_length {
        Some(c) => match parse_u64(c) {
            Some(n) => n.checked_add(offset),
            None => probed,
        },
        None => probed,
    }
}

/// The staging file after a request made by `plan` and answered as `v` with `body`:
/// emptied where the plan or the verdict says so, then the body appended; a rejected or
/// markup response writes nothing.
pub open spec fn staged_after(staged: Seq<u8>, plan: FetchPlan, v: Verdict, body: Seq<u8>) -> Seq<u8> {
    let before = if plan.truncate {
        Seq::<u8>::empty()
    } else {
        staged
    };
    match v {
        Verdict::Write { truncate, offset } => if truncate {
            body
        } else {
            before + body
        },
        _ => before,
    }
}

/// Resuming over ranges gives the file that a fresh download gives, in every strategy
/// (`markup` is whether the strategy refuses markup): from a staging file that holds the
/// first `d` bytes of the resource, a server that serves ranges answers with the rest, the staging file ends as the whole resource, as when fetched from
/// scratch, and the total counts the bytes on disk with the declared remainder.
pub proof fn lemma_resume_matches_fresh(resource: Seq<u8>, d: u64, content_length: Seq<char>, probed: Option<u64>, markup: bool)
    requires
        0 < d <= resource.len() <= u64::MAX,
        decimal_u64(content_length) == Some((resource.len() - d) as u64),
    ensures
        plan_of(d, true).range_start == Some(d),
        verdict_kind(plan_of(d, true), 206, markup) == Some(Verdict::Write { truncate: false, offset: d }),
        staged_after(resource.take(d as int), plan_of(d, true), Verdict::Write { truncate: false, offset: d }, resource.skip(d as int)) == resource,
        verdict_kind(plan_of(0, true), 200, false) == Some(Verdict::Write { truncate: false, offset: 0 }),
        staged_after(Seq::<u8>::empty(), plan_of(0, true), Verdict::Write { truncate: false, offset: 0 }, resource) == resource,
        total_of(Some(content_length), d, probed) == Some(resource.len() as u64),
{
    assert(resource.take(d as int) + resource.skip(d as int) =~= resource);
    assert(Seq::<u8>::empty() + resource =~= resource);
}

/// Without range support a staging file that holds bytes is emptied before the new
/// stream, and ends as the resource, as a fresh download does.
pub proof fn lemma_no_ranges_restarts(staged: Seq<u8>, resource: Seq<u8>)
    requires
        0 < staged.len() <= u64::MAX,
    ensures
        plan_of(staged.len() as u64, false).truncate,
        plan_of(staged.len() as u64, false).range_start.is_none(),
        verdict_kind(plan_of(staged.len() as u64, false), 200, false) == Some(Verdict::Write { truncate: false, offset: 0 }),
        staged_after(staged, plan_of(staged.len() as u64, false), Verdict::Write { truncate: false, offset: 0 }, resource) == resource,
{
    assert(Seq::<u8>::empty() + resource =~= resource);
}

/// A server that sends the whole resource in answer to a range request has the staging
/// file started over, so that it ends as the resource.
pub proof fn lemma_ignored_range_restarts(staged: Seq<u8>, resource: Seq<u8>)
    requires
        0 < staged.len() <= u64::MAX,
    ensures
        verdict_kind(plan_of(staged.len() as u64, true), 200, false) == Some(Verdict::Write { truncate: true, offset: 0 }),
        staged_after(staged, plan_of(staged.len() as u64, true), Verdict::Write { truncate: true, offset: 0 }, resource) == resource,
{
}

/// A resume that the server refuses as not satisfiable is rejected and leaves the staging
/// file as it was.
pub proof fn lemma_range_rejected_keeps_staging(staged: Seq<u8>, body: Seq<u8>, e: DownloadError)
    requires
        0 < staged.len() <= u64::MAX,
    ensures
        !plan_of(staged.len() as u64, true).truncate,
        verdict_kind(plan_of(staged.len() as u64, true), 416, false).is_none(),
        verdict_kind(plan_of(staged.len() as u64, true), 416, true).is_none(),
        staged_after(staged, plan_of(staged.len() as u64, true), Verdict::Reject(e), body) == staged,
{
}

/// A markup page received with success by a strategy that wants the file itself is
/// inspected, never written.
pub proof fn lemma_markup_not_saved(content_type: Seq<char>, plan: FetchPlan, staged: Seq<u8>, body: Seq<u8>)
    requires
        contains_seq(content_type, "text/html"@),
    ensures
        verdict_kind(plan, 200, is_markup_type(Some(content_type))) == Some(Verdict::InspectMarkup),
        staged_after(staged, plan, Verdict::InspectMarkup, body) == (if plan.truncate {
            Seq::<u8>::empty()
        } else {
            staged
        }),
{
}

} // verus!
