use vstd::prelude::*;
use vstd::string::*;
use crate::meta::opt_view;
use crate::text::{decimal_u64, parse_u64};

verus! {

/// What a metadata probe learned of a resource.
#[derive(Debug, Clone)]
pub struct DownloadMetadata {
    pub size: Option<u64>,
    pub etag: Option<String>,
    pub accept_ranges: bool,
}

fn opt_string(o: Option<&str>) -> (r: Option<String>)
    ensures
        opt_view(r) == (match o {
            Some(s) => Some(s@),
            None => None,
        }),
{
    match o {
        Some(s) => Some(String::from_str(s)),
        None => None,
    }
}

impl DownloadMetadata {
    /// Metadata read from the `Content-Length`, `ETag` and `Accept-Ranges` headers of a
    /// probe's response; ranges are served only where `Accept-Ranges` is `bytes`.
    pub fn from_headers(content_length: Option<&str>, etag: Option<&str>, accept_ranges: Option<&str>) -> (r: DownloadMetadata)
        ensures
            r.size == (match content_length {
                Some(c) => decimal_u64(c@),
                None => None,
            }),
            opt_view(r.etag) == (match etag {
                Some(e) => Some(e@),
                None => None,
            }),
            r.accept_ranges == (match accept_ranges {
                Some(a) => a@ == "bytes"@,
                None => false,
            }),
    {
        let size = match content_length {
            Some(c) => parse_u64(c),
            None => None,
        };
        let accept = match accept_ranges {
            Some(a) => {
                let a = String::from_str(a);
                let bytes = String::from_str("bytes");
                a == bytes
            },
            None => false,
        };
        DownloadMetadata { size, etag: opt_string(etag), accept_ranges: accept }
    }

    /// Metadata from a probe's response: its headers where the status is a success (2xx),
    /// nothing where the server rejected the probe.
    pub fn from_probe(status: u16, content_length: Option<&str>, etag: Option<&str>, accept_ranges: Option<&str>) -> (r: DownloadMetadata)
        ensures
            200 <= status < 300 ==> {
                &&& r.size == (match content_length {
                    Some(c) => decimal_u64(c@),
                    None => None,
                })
                &&& opt_view(r.etag) == (match etag {
                    Some(e) => Some(e@),
                    None => None,
                })
                &&& r.accept_ranges == (match accept_ranges {
                    Some(a) => a@ == "bytes"@,
                    None => false,
                })
            },
            !(200 <= status < 300) ==> r.size.is_none() && r.etag.is_none() && !r.accept_ranges,
    {
        if 200 <= status && status < 300 {
            Self::from_headers(content_length, etag, accept_ranges)
        } else {
            Self::unknown()
        }
    }

    /// What is known when the probe fails: nothing, and no range support.
    pub fn unknown() -> (r: DownloadMetadata)
        ensures
            r.size.is_none(),
            r.etag.is_none(),
            !r.accept_ranges,
    {
        DownloadMetadata { size: None, etag: None, accept_ranges: false }
    }
}

/// The decimal digits of `n`, most significant first, with no leading zeros.
pub open spec fn decimal_of(n: nat) -> Seq<char>
    decreases n,
{
    if n < 10 {
        seq![(n + '0' as nat) as char]
    } else {
        decimal_of(n / 10).push(((n % 10) + '0' as nat) as char)
    }
}

/// The one-character text of the digit `d`.
fn digit_text(d: u64) -> (r: &'static str)
    requires
        d < 10,
    ensures
        r@ == seq![(d + '0' as nat) as char],
{
    proof {
        reveal_strlit("0");
        reveal_strlit("1");
        reveal_strlit("2");
        reveal_strlit("3");
        reveal_strlit("4");
        reveal_strlit("5");
        reveal_strlit("6");
        reveal_strlit("7");
        reveal_strlit("8");
        reveal_strlit("9");
    }
    if d == 0 {
        "0"
    } else if d == 1 {
        "1"
    } else if d == 2 {
        "2"
    } else if d == 3 {
        "3"
    } else if d == 4 {
        "4"
    } else if d == 5 {
        "5"
    } else if d == 6 {
        "6"
    } else if d == 7 {
        "7"
    } else if d == 8 {
        "8"
    } else {
        "9"
    }
}

/// Appends the decimal digits of `n` to `r`.
fn append_decimal(r: &mut String, n: u64)
    ensures
        final(r)@ == old(r)@ + decimal_of(n as nat),
    decreases n,
{
    if n >= 10 {
        append_decimal(r, n / 10);
    }
    r.append(digit_text(n % 10));
    proof {
        if n >= 10 {
            assert(decimal_of(n as nat) == decimal_of((n / 10) as nat).push(((n % 10) + '0' as nat) as char));
        }
    }
}

/// The `Range` header value that asks for the bytes from `start` to the end.
pub fn range_header(start: u64) -> (r: String)
    ensures
        r@ == "bytes="@ + decimal_of(start as nat) + "-"@,
{
    let mut r = String::from_str("bytes=");
    append_decimal(&mut r, start);
    r.append("-");
    r
}

} // verus!
