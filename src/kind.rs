use vstd::prelude::*;

verus! {

/// How a download is fetched: the strategy that owns its URL.
#[derive(Debug, Clone, Copy, PartialEq, Eq, Structural)]
pub enum DownloadType {
    Http,
    GoogleDrive,
    Torrent,
    Magnet,
}

/// The short name under which a download kind is recorded.
pub open spec fn kind_name(k: DownloadType) -> Seq<char> {
    match k {
        DownloadType::Http => seq!['h', 't', 't', 'p'],
        DownloadType::GoogleDrive => seq!['g', 'd', 'r', 'i', 'v', 'e'],
        DownloadType::Torrent => seq!['t', 'o', 'r', 'r', 'e', 'n', 't'],
        DownloadType::Magnet => seq!['m', 'a', 'g', 'n', 'e', 't'],
    }
}

impl DownloadType {
    pub fn as_str(&self) -> (r: &'static str)
        ensures
            r@ == kind_name(*self),
    {
        proof {
            reveal_strlit("http");
            reveal_strlit("gdrive");
            reveal_strlit("torrent");
            reveal_strlit("magnet");
        }
        match self {
            DownloadType::Http => "http",
            DownloadType::GoogleDrive => "gdrive",
            DownloadType::Torrent => "torrent",
            DownloadType::Magnet => "magnet",
        }
    }
}

} // verus!
