use vstd::prelude::*;
use vstd::string::*;
use crate::error::DownloadError;
use crate::kind::DownloadType;
use crate::meta::{DownloadMeta, opt_view};
use crate::text::{contains, contains_bytes, contains_seq, find_from, first_index, trim_text, trimmed};

verus! {

/// The Google Drive strategy: direct-download and Takeout export links.
pub struct GDriveDownloader;

pub open spec fn direct_marker() -> Seq<char> {
    "drive.usercontent.google.com/download"@
}

pub open spec fn takeout_marker() -> Seq<char> {
    "takeout-download-drive.usercontent.google.com"@
}

/// Drive share and view pages, which need an interactive consent step.
pub open spec fn share_marker() -> Seq<char> {
    "drive.google.com/"@
}

/// A URL that the Drive strategy can fetch as it stands.
pub open spec fn is_drive_direct(url: Seq<char>) -> bool {
    contains_seq(url, direct_marker()) || contains_seq(url, takeout_marker())
}

/// A Drive URL that cannot be fetched as it stands.
pub open spec fn is_drive_share(url: Seq<char>) -> bool {
    !is_drive_direct(url) && contains_seq(url, share_marker())
}

pub open spec fn share_link_guidance() -> Seq<char> {
    "Only direct Google Drive download URLs are supported.\n\nSupported formats:\n• https://drive.usercontent.google.com/download?id=...\n• Google Takeout URLs\n\nShare links (drive.google.com/file/d/.../view) are not supported.\nTo download from browser, copy the URL from the browser's download manager, not the share link."@
}

/// Signs in a markup body that the file sits behind a sign-in page.
pub open spec fn auth_portal_body(body: Seq<u8>) -> bool {
    contains_seq(body, "signin".spec_bytes()) || contains_seq(body, "ServiceLogin".spec_bytes())
        || contains_seq(body, "accounts.google.com".spec_bytes())
}

pub open spec fn auth_required_text() -> Seq<char> {
    "This file requires Google account authentication.\n\nThe download URL may have expired or requires login.\nPlease copy a fresh download URL from your browser's download manager."@
}

pub open spec fn markup_received_text() -> Seq<char> {
    "Received HTML instead of file content.\n\nPossible causes:\n• The download URL has expired\n• The file requires authentication\n• The file is not publicly accessible\n\nPlease copy a fresh download URL from your browser's download manager."@
}

pub open spec fn quoted_mark() -> Seq<char> {
    "filename=\""@
}

pub open spec fn bare_mark() -> Seq<char> {
    "filename="@
}

/// The name in a `filename="..."` parameter, when its closing quote is there.
pub open spec fn quoted_filename(h: Seq<char>) -> Option<Seq<char>> {
    match first_index(h, quoted_mark(), 0) {
        Some(i) => match first_index(h, seq!['"'], i + 10) {
            Some(e) => Some(h.subrange(i + 10, e)),
            None => None,
        },
        None => None,
    }
}

/// The name in a `filename=...` parameter, up to `;` or the end, trimmed, when not empty.
pub open spec fn bare_filename(h: Seq<char>) -> Option<Seq<char>> {
    match first_index(h, bare_mark(), 0) {
        Some(i) => {
            let e = match first_index(h, seq![';'], i + 9) {
                Some(e) => e,
                None => h.len() as int,
            };
            let t = trimmed(h.subrange(i + 9, e));
            if t.len() > 0 {
                Some(t)
            } else {
                None
            }
        },
        None => None,
    }
}

/// The file name that a `Content-Disposition` value declares.
pub open spec fn header_filename(h: Seq<char>) -> Option<Seq<char>> {
    match quoted_filename(h) {
        Some(f) => Some(f),
        None => bare_filename(h),
    }
}

impl GDriveDownloader {
    /// Whether the URL is a Drive direct-download or Takeout export link.
    pub fn is_direct_link(url: &str) -> (r: bool)
        ensures
            r == is_drive_direct(url@),
    {
        contains(url, "drive.usercontent.google.com/download") || contains(
            url,
            "takeout-download-drive.usercontent.google.com",
        )
    }

    /// Whether this strategy owns the URL.
    pub fn detect(url: &str) -> (r: bool)
        ensures
            r == is_drive_direct(url@),
    {
        Self::is_direct_link(url)
    }

    /// Resolves a URL that this strategy owns; rejects Drive share links with guidance;
    /// leaves any other URL to the next strategy (`None`).
    pub fn analyze(url: &str) -> (r: Result<Option<DownloadMeta>, DownloadError>)
        ensures
            match r {
                Ok(Some(m)) => is_drive_direct(url@) && m.download_type == DownloadType::GoogleDrive
                    && m.direct_url@ == url@ && opt_view(m.original_url) == Some(url@)
                    && m.suggested_filename.is_none(),
                Ok(None) => !is_drive_direct(url@) && !is_drive_share(url@),
                Err(e) => is_drive_share(url@) && e == DownloadError::InvalidUrl(e->InvalidUrl_0)
                    && e->InvalidUrl_0@ == share_link_guidance(),
            },
    {
        if Self::detect(url) {
            let direct = String::from_str(url);
            let original = String::from_str(url);
            return Ok(
                Some(
                    DownloadMeta {
                        download_type: DownloadType::GoogleDrive,
                        direct_url: direct,
                        original_url: Some(original),
                        suggested_filename: None,
                    },
                ),
            );
        }
        if contains(url, "drive.google.com/") {
            return Err(DownloadError::InvalidUrl(String::from_str("Only direct Google Drive download URLs are supported.\n\nSupported formats:\n• https://drive.usercontent.google.com/download?id=...\n• Google Takeout URLs\n\nShare links (drive.google.com/file/d/.../view) are not supported.\nTo download from browser, copy the URL from the browser's download manager, not the share link.")));
        }
        Ok(None)
    }

    /// Direct links expire and cannot be minted again from the original URL.
    pub fn refresh_url(original_url: &str) -> (r: Option<String>)
        ensures
            r.is_none(),
    {
        None
    }

    /// The error for a markup body received in place of the file.
    pub fn markup_error(body: &[u8]) -> (r: DownloadError)
        ensures
            r == DownloadError::AccessDenied(r->AccessDenied_0),
            r->AccessDenied_0@ == (if auth_portal_body(body@) {
                auth_required_text()
            } else {
                markup_received_text()
            }),
    {
        let signin = "signin".as_bytes_vec();
        let login = "ServiceLogin".as_bytes_vec();
        let accounts = "accounts.google.com".as_bytes_vec();
        if contains_bytes(body, signin.as_slice()) || contains_bytes(body, login.as_slice())
            || contains_bytes(body, accounts.as_slice()) {
            return DownloadError::AccessDenied(String::from_str("This file requires Google account authentication.\n\nThe download URL may have expired or requires login.\nPlease copy a fresh download URL from your browser's download manager."));
        }
        DownloadError::AccessDenied(String::from_str("Received HTML instead of file content.\n\nPossible causes:\n• The download URL has expired\n• The file requires authentication\n• The file is not publicly accessible\n\nPlease copy a fresh download URL from your browser's download manager."))
    }

    /// The file name that a `Content-Disposition` value declares, if any.
    pub fn extract_filename_from_header(header_value: &str) -> (r: Option<String>)
        ensures
            opt_view(r) == header_filename(header_value@),
    {
        proof {
            reveal_strlit("filename=\"");
            reveal_strlit("filename=");
            reveal_strlit("\"");
            reveal_strlit(";");
            assert("\""@ =~= seq!['"']);
            assert(";"@ =~= seq![';']);
        }
        let len = header_value.unicode_len();
        if let Some(at) = find_from(header_value, "filename=\"", 0) {
            assert(first_index(header_value@, quoted_mark(), 0) == Some(at as int));
            let start = at + 10;
            if let Some(end) = find_from(header_value, "\"", start) {
                assert(first_index(header_value@, seq!['"'], start as int) == Some(end as int));
                assert(quoted_filename(header_value@) == Some(
                    header_value@.subrange(start as int, end as int),
                ));
                return Some(String::from_str(header_value.substring_char(start, end)));
            }
        }
        if let Some(start) = find_from(header_value, "filename=", 0) {
            let start = start + 9;
            let end = match find_from(header_value, ";", start) {
                Some(e) => e,
                None => len,
            };
            let filename = trim_text(header_value.substring_char(start, end));
            if filename.unicode_len() > 0 {
                return Some(filename);
            }
        }
        None
    }
}

} // verus!
