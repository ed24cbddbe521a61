use vstd::prelude::*;
use vstd::string::*;
use crate::error::DownloadError;
use crate::gdrive::{GDriveDownloader, is_drive_direct, is_drive_share, share_link_guidance};
use crate::kind::{DownloadType, kind_name};
use crate::http::DownloadMetadata;
use crate::meta::{DownloadMeta, opt_view};
use crate::paths::{final_path_of, resolve_final_path};
use crate::transfer::{FetchPlan, plan_fetch, plan_of};

verus! {

/// The strategy that owns a URL: Drive for its direct links, plain HTTP for the rest.
pub open spec fn strategy_for(url: Seq<char>) -> DownloadType {
    if is_drive_direct(url) {
        DownloadType::GoogleDrive
    } else {
        DownloadType::Http
    }
}

/// Runs the strategies in priority order on `url`: the first that owns it analyses it;
/// plain HTTP takes what no other owns.
pub fn select_strategy(url: &str) -> (r: Result<DownloadMeta, DownloadError>)
    ensures
        match r {
            Ok(m) => {
                &&& !is_drive_share(url@)
                &&& m.download_type == strategy_for(url@)
                &&& m.direct_url@ == url@
                &&& opt_view(m.original_url) == (if is_drive_direct(url@) {
                    Some(url@)
                } else {
                    None
                })
                &&& m.suggested_filename.is_none()
            },
            Err(e) => {
                &&& is_drive_share(url@)
                &&& e == DownloadError::InvalidUrl(e->InvalidUrl_0)
                &&& e->InvalidUrl_0@ == share_link_guidance()
            },
        },
{
    match GDriveDownloader::analyze(url) {
        Ok(Some(m)) => Ok(m),
        Ok(None) => Ok(FileDownloader::analyze(url)),
        Err(e) => Err(e),
    }
}

/// The plain HTTP strategy, which takes any URL.
pub struct FileDownloader;

impl FileDownloader {
    /// Plain HTTP owns every URL; it is tried last.
    pub fn detect(url: &str) -> (r: bool)
        ensures
            r,
    {
        true
    }

    /// A URL is fetched as it stands.
    pub fn analyze(url: &str) -> (r: DownloadMeta)
        ensures
            r.download_type == DownloadType::Http,
            r.direct_url@ == url@,
            r.original_url.is_none(),
            r.suggested_filename.is_none(),
    {
        DownloadMeta {
            download_type: DownloadType::Http,
            direct_url: String::from_str(url),
            original_url: None,
            suggested_filename: None,
        }
    }

    /// Plain HTTP links do not expire: there is nothing to refresh.
    pub fn refresh_url(original_url: &str) -> (r: Option<String>)
        ensures
            r.is_none(),
    {
        None
    }

    /// A plain HTTP download lands at its destination as given.
    pub fn target_path(save_path: &str) -> (r: String)
        ensures
            r@ == save_path@,
    {
        String::from_str(save_path)
    }

    /// Resumes `staged` bytes where the probe found range support, else starts over.
    pub fn plan(staged: u64, meta: &DownloadMetadata) -> (r: FetchPlan)
        ensures
            r == plan_of(staged, meta.accept_ranges),
    {
        plan_fetch(staged, meta.accept_ranges)
    }
}

impl GDriveDownloader {
    /// Resumes `staged` bytes where the server serves ranges, else starts over, as every
    /// strategy does.
    pub fn plan(staged: u64, accept_ranges: bool) -> (r: FetchPlan)
        ensures
            r == plan_of(staged, accept_ranges),
    {
        plan_fetch(staged, accept_ranges)
    }

    /// Where a Drive transfer lands: a resumed one keeps the destination whose staging file
    /// it resumes; a fresh one may take the name that the response declares.
    pub fn target_path(save_path: &str, save_is_dir: bool, filename: Option<&str>, offset: u64) -> (r: String)
        ensures
            r@ == (if offset > 0 {
                save_path@
            } else {
                final_path_of(
                    save_path@,
                    save_is_dir,
                    match filename {
                        Some(f) => Some(f@),
                        None => None,
                    },
                )
            }),
    {
        if offset > 0 {
            String::from_str(save_path)
        } else {
            resolve_final_path(save_path, save_is_dir, filename)
        }
    }
}

/// A lowercase hexadecimal digit.
pub open spec fn is_lower_hex(c: char) -> bool {
    ('0' <= c && c <= '9') || ('a' <= c && c <= 'f')
}

/// The hyphenated form of a UUID: 36 characters, hyphens at 8, 13, 18 and 23, lowercase
/// hexadecimal digits elsewhere.
pub open spec fn is_hyphenated_uuid(s: Seq<char>) -> bool {
    &&& s.len() == 36
    &&& forall|i: int|
        0 <= i < 36 ==> if i == 8 || i == 13 || i == 18 || i == 23 {
            s[i] == '-'
        } else {
            is_lower_hex(#[trigger] s[i])
        }
}

/// Relies on uuid's `Uuid::new_v4` and its `Display`: a random identifier, written in
/// the hyphenated lowercase form.
#[verifier::external_body]
fn fresh_task_id() -> (r: String)
    ensures
        is_hyphenated_uuid(r@),
{
    uuid::Uuid::new_v4().to_string()
}

/// A start request that was accepted: the new task's id and how it will be fetched.
#[derive(Debug)]
pub struct TaskStart {
    pub id: String,
    pub meta: DownloadMeta,
}

/// A start request that analysis refused, under the id that it had been given.
#[derive(Debug)]
pub struct StartRejected {
    pub id: String,
    pub error: DownloadError,
}

/// What the host is told of an accepted start.
#[derive(Debug, Clone, PartialEq, Eq)]
pub struct DownloadResponse {
    pub id: String,
    pub download_type: String,
    pub original_url: Option<String>,
}

impl TaskStart {
    pub fn response(&self) -> (r: DownloadResponse)
        ensures
            r.id@ == self.id@,
            r.download_type@ == kind_name(self.meta.download_type),
            opt_view(r.original_url) == opt_view(self.meta.original_url),
    {
        let original_url = match &self.meta.original_url {
            Some(u) => Some(u.clone()),
            None => None,
        };
        DownloadResponse {
            id: self.id.clone(),
            download_type: String::from_str(self.meta.download_type.as_str()),
            original_url,
        }
    }
}

/// The registry of live transfers: each task id with the handle that cancels its
/// transfer.
pub struct DownloadManager<H> {
    tasks: Vec<(String, H)>,
}

impl<H> DownloadManager<H> {
    /// The ids of the live transfers, in order of registration.
    pub closed spec fn ids(&self) -> Seq<Seq<char>> {
        self.tasks@.map_values(|p: (String, H)| p.0@)
    }

    /// The ids of the live transfers.
    pub open spec fn id_set(&self) -> Set<Seq<char>> {
        self.ids().to_set()
    }

    /// At most one live transfer per id.
    pub open spec fn wf(&self) -> bool {
        self.ids().no_duplicates()
    }

    pub fn new() -> (r: Self)
        ensures
            r.wf(),
            r.id_set() == Set::<Seq<char>>::empty(),
    {
        let r = DownloadManager { tasks: Vec::new() };
        assert(r.ids() =~= Seq::<Seq<char>>::empty());
        r
    }

    /// Mints an id for a start request and resolves how its URL will be fetched, before
    /// any byte moves; nothing is registered yet.
    pub fn download(&self, url: &str) -> (r: Result<TaskStart, StartRejected>)
        ensures
            match r {
                Ok(t) => {
                    &&& is_hyphenated_uuid(t.id@)
                    &&& !is_drive_share(url@)
                    &&& t.meta.download_type == strategy_for(url@)
                    &&& t.meta.direct_url@ == url@
                    &&& t.meta.suggested_filename.is_none()
                    &&& opt_view(t.meta.original_url) == (if is_drive_direct(url@) {
                        Some(url@)
                    } else {
                        None
                    })
                },
                Err(rej) => {
                    &&& is_hyphenated_uuid(rej.id@)
                    &&& is_drive_share(url@)
                    &&& rej.error == DownloadError::InvalidUrl(rej.error->InvalidUrl_0)
                    &&& rej.error->InvalidUrl_0@ == share_link_guidance()
                },
            },
    {
        let id = fresh_task_id();
        match select_strategy(url) {
            Ok(meta) => Ok(TaskStart { id, meta }),
            Err(error) => Err(StartRejected { id, error }),
        }
    }

    /// The position of `id` among the live transfers.
    fn position(&self, id: &str) -> (r: Option<usize>)
        ensures
            match r {
                Some(i) => i < self.ids().len() && self.ids()[i as int] == id@,
                None => !self.ids().contains(id@),
            },
    {
        let key = String::from_str(id);
        let mut i: usize = 0;
        while i < self.tasks.len()
            invariant
                key@ == id@,
                i <= self.tasks@.len(),
                forall|j: int| 0 <= j < i ==> self.ids()[j] != id@,
            decreases self.tasks@.len() - i,
        {
            if self.tasks[i].0 == key {
                return Some(i);
            }
            i = i + 1;
        }
        None
    }

    /// Whether a transfer with this id is live.
    pub fn contains(&self, id: &str) -> (r: bool)
        ensures
            r == self.id_set().contains(id@),
    {
        match self.position(id) {
            Some(i) => true,
            None => false,
        }
    }

    /// Takes `id` out of the registry, with its handle.
    fn take(&mut self, id: &str) -> (r: Option<H>)
        requires
            old(self).wf(),
        ensures
            final(self).wf(),
            r.is_some() == old(self).id_set().contains(id@),
            final(self).id_set() == old(self).id_set().remove(id@),
    {
        match self.position(id) {
            Some(i) => {
                let ghost before = self.ids();
                let (_, h) = self.tasks.remove(i);
                proof {
                    assert(self.ids() =~= before.remove(i as int));
                    assert(self.id_set() =~= before.to_set().remove(id@)) by {
                        assert forall|x: Seq<char>| self.id_set().contains(x)
                            <==> before.to_set().remove(id@).contains(x) by {
                            if self.id_set().contains(x) {
                                let k = choose|k: int| 0 <= k < self.ids().len() && self.ids()[k] == x;
                                if k < i {
                                    assert(before[k] == x);
                                } else {
                                    assert(before[k + 1] == x);
                                }
                            }
                            if before.to_set().remove(id@).contains(x) {
                                let k = choose|k: int| 0 <= k < before.len() && before[k] == x;
                                if k < i {
                                    assert(self.ids()[k] == x);
                                } else {
                                    assert(self.ids()[k - 1] == x);
                                }
                            }
                        }
                    }
                }
                Some(h)
            },
            None => {
                assert(self.id_set() =~= self.id_set().remove(id@));
                None
            },
        }
    }

    /// Registers the transfer of `id` with its cancellation handle; a handle already
    /// registered under `id` is handed back.
    pub fn register(&mut self, id: String, handle: H) -> (r: Option<H>)
        requires
            old(self).wf(),
        ensures
            final(self).wf(),
            r.is_some() == old(self).id_set().contains(id@),
            final(self).id_set() == old(self).id_set().insert(id@),
    {
        let prev = self.take(id.as_str());
        let ghost before = self.ids();
        self.tasks.push((id, handle));
        proof {
            assert(self.ids() =~= before.push(id@));
            assert(self.id_set() =~= before.to_set().insert(id@)) by {
                assert forall|x: Seq<char>| self.id_set().contains(x)
                    <==> before.to_set().insert(id@).contains(x) by {
                    if self.id_set().contains(x) && x != id@ {
                        let k = choose|k: int| 0 <= k < self.ids().len() && self.ids()[k] == x;
                        assert(before[k] == x);
                    }
                    if before.to_set().contains(x) {
                        let k = choose|k: int| 0 <= k < before.len() && before[k] == x;
                        assert(self.ids()[k] == x);
                    }
                    if x == id@ {
                        assert(self.ids()[before.len() as int] == x);
                    }
                }
            }
            assert forall|a: int, b: int| 0 <= a < b < self.ids().len() implies self.ids()[a]
                != self.ids()[b] by {
                assert(self.ids()[a] == before[a]);
                if b == before.len() {
                    assert(before.to_set().contains(before[a]));
                    assert(!before.to_set().contains(id@));
                } else {
                    assert(self.ids()[b] == before[b]);
                }
            }
        }
        prev
    }

    /// Cancels the transfer of `id`: its handle is taken out of the registry and handed
    /// back, to be aborted; an unknown id is `NotFound`.
    pub fn pause(&mut self, id: &str) -> (r: Result<H, DownloadError>)
        requires
            old(self).wf(),
        ensures
            final(self).wf(),
            r.is_ok() == old(self).id_set().contains(id@),
            r.is_err() ==> r == Err::<H, DownloadError>(DownloadError::NotFound),
            final(self).id_set() == old(self).id_set().remove(id@),
    {
        match self.take(id) {
            Some(h) => Ok(h),
            None => Err(DownloadError::NotFound),
        }
    }

    /// Drops the transfer of `id` from the registry once it has ended by itself.
    pub fn finish(&mut self, id: &str) -> (r: bool)
        requires
            old(self).wf(),
        ensures
            final(self).wf(),
            r == old(self).id_set().contains(id@),
            final(self).id_set() == old(self).id_set().remove(id@),
    {
        let h = self.take(id);
        h.is_some()
    }

    /// How many transfers are live.
    pub fn active_count(&self) -> (r: usize)
        requires
            self.wf(),
        ensures
            r == self.id_set().len(),
    {
        proof {
            self.ids().unique_seq_to_set();
        }
        self.tasks.len()
    }
}

/// Pausing removes the task from the live set, so that pausing it again finds nothing:
/// after a pause of `id`, the live ids no longer hold `id`.
pub proof fn lemma_pause_twice_not_found<H>(before: &DownloadManager<H>, after: &DownloadManager<H>, id: Seq<char>)
    requires
        before.wf(),
        after.id_set() == before.id_set().remove(id),
    ensures
        !after.id_set().contains(id),
{
}

} // verus!
