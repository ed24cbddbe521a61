use vstd::prelude::*;
use vstd::string::*;
use crate::kind::DownloadType;
use crate::meta::opt_view;

verus! {

/// Space on the disk that holds a path.
#[derive(Debug, Clone, PartialEq, Eq)]
pub struct StorageInfo {
    pub total: u64,
    pub used: u64,
    pub free: u64,
    pub mount_point: String,
}

/// The user's settings.
#[derive(Debug, Clone, PartialEq, Eq)]
pub struct AppSettings {
    pub wallpaper_url: Option<String>,
    pub theme: Option<String>,
    pub default_download_path: Option<String>,
    pub author: String,
    pub launch_on_startup: bool,
    pub toggle_keybind: Option<String>,
    pub use_new_ui: bool,
    pub auto_update_enabled: bool,
    pub silent_updates: bool,
}

impl Default for AppSettings {
    fn default() -> (r: Self)
        ensures
            r.wallpaper_url.is_none(),
            opt_view(r.theme) == Some("dark"@),
            r.default_download_path.is_none(),
            r.author@ == "@rohanpls"@,
            !r.launch_on_startup,
            opt_view(r.toggle_keybind) == Some("Ctrl+Shift+D"@),
            r.use_new_ui,
            r.auto_update_enabled,
            !r.silent_updates,
    {
        AppSettings {
            wallpaper_url: None,
            theme: Some(String::from_str("dark")),
            default_download_path: None,
            author: String::from_str("@rohanpls"),
            launch_on_startup: false,
            toggle_keybind: Some(String::from_str("Ctrl+Shift+D")),
            use_new_ui: true,
            auto_update_enabled: true,
            silent_updates: false,
        }
    }
}

/// One download as the history records it.
#[derive(Debug, Clone, PartialEq, Eq)]
pub struct DownloadHistoryItem {
    pub id: String,
    pub url: String,
    pub path: String,
    pub filename: String,
    pub total: Option<u64>,
    pub downloaded: u64,
    pub status: String,
    pub etag: Option<String>,
    pub created_at: String,
    pub updated_at: String,
    pub download_type: DownloadType,
    pub original_url: Option<String>,
}

/// The recorded downloads, oldest first.
#[derive(Debug, Clone, PartialEq, Eq)]
pub struct DownloadHistory {
    pub items: Vec<DownloadHistoryItem>,
}

impl DownloadHistory {
    pub fn new() -> (r: DownloadHistory)
        ensures
            r.items@.len() == 0,
    {
        DownloadHistory { items: Vec::new() }
    }
}

/// A path lies on or under a mount point, component by component.
pub uninterp spec fn path_within(path: Seq<char>, base: Seq<char>) -> bool;

/// Relies on `std::path::Path::starts_with`: whether `base` is a leading run of the
/// components of `path`, a function of the two alone.
#[verifier::external_body]
fn path_starts_with(path: &str, base: &str) -> (r: bool)
    ensures
        r == path_within(path@, base@),
{
    std::path::Path::new(path).starts_with(base)
}

/// The length in bytes of a mount point, which ranks the mounts that hold a path.
pub open spec fn mount_len(m: String) -> nat {
    vstd::utf8::encode_utf8(m@).len()
}

/// `i` names a mount that holds `path` and is at least as long as every other that does,
/// and the last of the longest.
pub open spec fn is_best_mount(path: Seq<char>, mounts: Seq<String>, i: int) -> bool {
    &&& 0 <= i < mounts.len()
    &&& path_within(path, mounts[i]@)
    &&& forall|j: int| 0 <= j < mounts.len() && path_within(path, #[trigger] mounts[j]@) ==> (
        mount_len(mounts[j]) <= mount_len(mounts[i]))
    &&& forall|j: int| i < j < mounts.len() && path_within(path, #[trigger] mounts[j]@) ==> (
        mount_len(mounts[j]) < mount_len(mounts[i]))
}

/// The disk that holds `path`: among the mount points that hold it, the longest.
pub fn best_mount(path: &str, mounts: &Vec<String>) -> (r: Option<usize>)
    ensures
        match r {
            Some(i) => is_best_mount(path@, mounts@, i as int),
            None => forall|j: int| 0 <= j < mounts@.len() ==> !path_within(path@, #[trigger] mounts@[j]@),
        },
{
    let mut best: Option<usize> = None;
    let mut best_len: usize = 0;
    let mut i: usize = 0;
    while i < mounts.len()
        invariant
            i <= mounts@.len(),
            match best {
                Some(b) => {
                    &&& b < i
                    &&& path_within(path@, mounts@[b as int]@)
                    &&& best_len == mount_len(mounts@[b as int])
                    &&& forall|j: int| 0 <= j < i && path_within(path@, #[trigger] mounts@[j]@) ==> (
                        mount_len(mounts@[j]) <= best_len)
                    &&& forall|j: int| b < j < i && path_within(path@, #[trigger] mounts@[j]@) ==> (
                        mount_len(mounts@[j]) < best_len)
                },
                None => forall|j: int| 0 <= j < i ==> !path_within(path@, #[trigger] mounts@[j]@),
            },
        decreases mounts@.len() - i,
    {
        let m = &mounts[i];
        if path_starts_with(path, m.as_str()) {
            let len = m.as_str().as_bytes_vec().len();
            let better = match best {
                Some(_) => len >= best_len,
                None => true,
            };
            if better {
                best = Some(i);
                best_len = len;
            }
        }
        i = i + 1;
    }
    best
}

impl StorageInfo {
    /// The space of a disk of `total` bytes, `available` of them free, mounted at
    /// `mount_point`; the used space never goes below zero.
    pub fn from_space(total: u64, available: u64, mount_point: String) -> (r: StorageInfo)
        ensures
            r.total == total,
            r.free == available,
            r.used == (if available <= total {
                total - available
            } else {
                0
            }),
            r.mount_point@ == mount_point@,
    {
        StorageInfo { total, used: total.saturating_sub(available), free: available, mount_point }
    }
}

} // verus!
