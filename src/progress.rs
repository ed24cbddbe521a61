use vstd::prelude::*;
use crate::error::{DownloadError, error_text};

verus! {

/// Least time between two progress samples, in milliseconds.
pub const EMIT_INTERVAL_MS: u64 = 100;

/// A progress sample of one transfer.
#[derive(Debug, Clone, PartialEq, Eq)]
pub struct ProgressEvent {
    pub id: String,
    pub downloaded: u64,
    pub total: Option<u64>,
    /// Bytes per second over the window since the previous sample.
    pub speed: u64,
}

/// What a transfer tells its observer.
#[derive(Debug, Clone, PartialEq, Eq)]
pub enum TransferEvent {
    Progress(ProgressEvent),
    Complete { id: String, path: String },
    Failed { id: String, message: String },
}

/// An event after which nothing more is told of the transfer.
pub open spec fn is_terminal(e: TransferEvent) -> bool {
    !(e is Progress)
}

/// The throughput of `bytes` bytes over `ms` milliseconds, in bytes per second, capped
/// at the largest `u64`.
pub open spec fn rate(bytes: u64, ms: u64) -> u64 {
    let r = bytes as int * 1000 / ms as int;
    if r > u64::MAX {
        u64::MAX
    } else {
        r as u64
    }
}

/// The progress and lifecycle of one transfer, with the events it has told so far.
pub struct Transfer {
    id: String,
    downloaded: u64,
    total: Option<u64>,
    since_emit: u64,
    last_emit_ms: u64,
    finished: bool,
    start: Ghost<u64>,
    written: Ghost<Seq<u8>>,
    log: Ghost<Seq<TransferEvent>>,
    marks: Ghost<Seq<nat>>,
}

impl Transfer {
    pub closed spec fn id_view(&self) -> Seq<char> {
        self.id@
    }

    /// Bytes of the resource in the staging file.
    pub closed spec fn downloaded_bytes(&self) -> u64 {
        self.downloaded
    }

    /// Bytes that were already on disk when the transfer began.
    pub closed spec fn start_offset(&self) -> u64 {
        self.start@
    }

    /// The bytes this transfer has written to the staging file, in order.
    pub closed spec fn written(&self) -> Seq<u8> {
        self.written@
    }

    pub closed spec fn total_bytes(&self) -> Option<u64> {
        self.total
    }

    /// Bytes received since the last progress sample.
    pub closed spec fn pending(&self) -> u64 {
        self.since_emit
    }

    /// When the last sample was told (or the transfer began), in milliseconds.
    pub closed spec fn last_emit(&self) -> u64 {
        self.last_emit_ms
    }

    pub closed spec fn is_finished(&self) -> bool {
        self.finished
    }

    /// The events told so far, in order.
    pub closed spec fn events(&self) -> Seq<TransferEvent> {
        self.log@
    }

    /// How many of the written bytes had been written when each event was told.
    pub closed spec fn written_at(&self) -> Seq<nat> {
        self.marks@
    }

    pub closed spec fn wf(&self) -> bool {
        &&& self.marks@.len() == self.log@.len()
        &&& forall|i: int| 0 <= i < self.marks@.len() ==> #[trigger] self.marks@[i] <= self.written@.len()
        &&& forall|i: int|
            0 <= i < self.log@.len() && (#[trigger] self.log@[i] is Progress)
                ==> self.log@[i]->Progress_0.downloaded == self.start@ + self.marks@[i]
        &&& self.since_emit <= self.downloaded
        &&& self.downloaded == self.start@ + self.written@.len()
        &&& self.finished == (self.log@.len() > 0 && is_terminal(self.log@.last()))
        &&& forall|i: int| 0 <= i < self.log@.len() - 1 ==> !is_terminal(#[trigger] self.log@[i])
        &&& forall|i: int|
            0 <= i < self.log@.len() && (#[trigger] self.log@[i] is Progress)
                ==> self.log@[i]->Progress_0.downloaded <= self.downloaded
        &&& forall|i: int, j: int|
            0 <= i < j < self.log@.len() && (#[trigger] self.log@[i] is Progress) && (
            #[trigger] self.log@[j] is Progress) ==> self.log@[i]->Progress_0.downloaded
                <= self.log@[j]->Progress_0.downloaded
    }

    /// A transfer of the resource `id` that begins with `offset` bytes on disk, at time
    /// `now_ms`.
    pub fn new(id: String, offset: u64, total: Option<u64>, now_ms: u64) -> (r: Transfer)
        ensures
            r.wf(),
            r.id_view() == id@,
            r.downloaded_bytes() == offset,
            r.start_offset() == offset,
            r.written() == Seq::<u8>::empty(),
            r.total_bytes() == total,
            r.pending() == 0,
            r.last_emit() == now_ms,
            !r.is_finished(),
            r.events() == Seq::<TransferEvent>::empty(),
    {
        Transfer {
            id,
            downloaded: offset,
            total,
            since_emit: 0,
            last_emit_ms: now_ms,
            finished: false,
            start: Ghost(offset),
            written: Ghost(Seq::empty()),
            log: Ghost(Seq::empty()),
            marks: Ghost(Seq::empty()),
        }
    }

    pub fn downloaded(&self) -> (r: u64)
        ensures
            r == self.downloaded_bytes(),
    {
        self.downloaded
    }

    pub fn total(&self) -> (r: Option<u64>)
        ensures
            r == self.total_bytes(),
    {
        self.total
    }

    pub fn finished(&self) -> (r: bool)
        ensures
            r == self.is_finished(),
    {
        self.finished
    }

    /// Counts `chunk`, just written to the staging file, at time `now_ms`, and tells a
    /// progress sample when the interval since the last one has passed.
    pub fn on_chunk(&mut self, chunk: &[u8], now_ms: u64) -> (r: Option<ProgressEvent>)
        requires
            old(self).wf(),
            !old(self).is_finished(),
            old(self).downloaded_bytes() + chunk@.len() <= u64::MAX,
        ensures
            final(self).wf(),
            !final(self).is_finished(),
            final(self).id_view() == old(self).id_view(),
            final(self).total_bytes() == old(self).total_bytes(),
            final(self).start_offset() == old(self).start_offset(),
            final(self).written() == old(self).written() + chunk@,
            final(self).downloaded_bytes() == old(self).downloaded_bytes() + chunk@.len(),
            r.is_some() == (now_ms >= old(self).last_emit() && now_ms - old(self).last_emit()
                >= EMIT_INTERVAL_MS),
            match r {
                Some(e) => {
                    &&& e.id@ == old(self).id_view()
                    &&& e.downloaded == final(self).downloaded_bytes()
                    &&& e.downloaded == final(self).start_offset() + final(self).written().len()
                    &&& e.total == old(self).total_bytes()
                    &&& e.speed == rate(
                        (old(self).pending() + chunk@.len()) as u64,
                        (now_ms - old(self).last_emit()) as u64,
                    )
                    &&& final(self).events() == old(self).events().push(TransferEvent::Progress(e))
                    &&& final(self).written_at() == old(self).written_at().push(final(self).written().len())
                    &&& final(self).pending() == 0
                    &&& final(self).last_emit() == now_ms
                },
                None => {
                    &&& final(self).events() == old(self).events()
                    &&& final(self).written_at() == old(self).written_at()
                    &&& final(self).pending() == old(self).pending() + chunk@.len()
                    &&& final(self).last_emit() == old(self).last_emit()
                },
            },
    {
        let len = chunk.len() as u64;
        proof {
            self.written@ = self.written@ + chunk@;
        }
        self.downloaded = self.downloaded + len;
        self.since_emit = self.since_emit + len;
        if now_ms >= self.last_emit_ms && now_ms - self.last_emit_ms >= EMIT_INTERVAL_MS {
            let elapsed = now_ms - self.last_emit_ms;
            let r128 = self.since_emit as u128 * 1000 / elapsed as u128;
            let speed: u64 = if r128 > u64::MAX as u128 {
                u64::MAX
            } else {
                r128 as u64
            };
            let e = ProgressEvent {
                id: self.id.clone(),
                downloaded: self.downloaded,
                total: self.total,
                speed,
            };
            proof {
                self.log@ = self.log@.push(TransferEvent::Progress(e));
                self.marks@ = self.marks@.push(self.written@.len());
            }
            self.since_emit = 0;
            self.last_emit_ms = now_ms;
            Some(e)
        } else {
            None
        }
    }

    /// The last progress sample, told once the stream is exhausted, with no rate.
    pub fn finish(&mut self) -> (r: ProgressEvent)
        requires
            old(self).wf(),
            !old(self).is_finished(),
        ensures
            final(self).wf(),
            !final(self).is_finished(),
            final(self).id_view() == old(self).id_view(),
            final(self).downloaded_bytes() == old(self).downloaded_bytes(),
            final(self).written() == old(self).written(),
            final(self).total_bytes() == old(self).total_bytes(),
            r.id@ == old(self).id_view(),
            r.downloaded == old(self).downloaded_bytes(),
            r.total == old(self).total_bytes(),
            r.speed == 0,
            final(self).pending() == 0,
            final(self).last_emit() == old(self).last_emit(),
            final(self).events() == old(self).events().push(TransferEvent::Progress(r)),
            final(self).written_at() == old(self).written_at().push(old(self).written().len()),
    {
        let e = ProgressEvent { id: self.id.clone(), downloaded: self.downloaded, total: self.total, speed: 0 };
        proof {
            self.log@ = self.log@.push(TransferEvent::Progress(e));
            self.marks@ = self.marks@.push(self.written@.len());
        }
        self.since_emit = 0;
        e
    }

    /// Ends the transfer with success: the file stands at `path`.
    pub fn complete(&mut self, path: String) -> (r: TransferEvent)
        requires
            old(self).wf(),
            !old(self).is_finished(),
        ensures
            final(self).wf(),
            final(self).is_finished(),
            final(self).downloaded_bytes() == old(self).downloaded_bytes(),
            final(self).written() == old(self).written(),
            r == (TransferEvent::Complete { id: r->Complete_id, path }),
            r->Complete_id@ == old(self).id_view(),
            final(self).events() == old(self).events().push(r),
    {
        let e = TransferEvent::Complete { id: self.id.clone(), path };
        proof {
            self.log@ = self.log@.push(e);
            self.marks@ = self.marks@.push(self.written@.len());
        }
        self.finished = true;
        e
    }

    /// Ends the transfer with the error `err`.
    pub fn fail(&mut self, err: &DownloadError) -> (r: TransferEvent)
        requires
            old(self).wf(),
            !old(self).is_finished(),
        ensures
            final(self).wf(),
            final(self).is_finished(),
            final(self).downloaded_bytes() == old(self).downloaded_bytes(),
            final(self).written() == old(self).written(),
            (r is Failed),
            r->Failed_id@ == old(self).id_view(),
            r->Failed_message@ == error_text(*err),
            final(self).events() == old(self).events().push(r),
    {
        let e = TransferEvent::Failed { id: self.id.clone(), message: err.message() };
        proof {
            self.log@ = self.log@.push(e);
            self.marks@ = self.marks@.push(self.written@.len());
        }
        self.finished = true;
        e
    }
}

/// The progress samples of a transfer never go back: the byte counts they carry do not
/// decrease, and none exceeds the bytes in the staging file, which are those on disk at
/// the start and those written since.
pub proof fn lemma_progress_monotone(t: &Transfer, i: int, j: int)
    requires
        t.wf(),
        0 <= i < j < t.events().len(),
        t.events()[i] is Progress,
        t.events()[j] is Progress,
    ensures
        t.events()[i]->Progress_0.downloaded <= t.events()[j]->Progress_0.downloaded,
        t.events()[j]->Progress_0.downloaded <= t.downloaded_bytes(),
        t.downloaded_bytes() == t.start_offset() + t.written().len(),
{
}

/// Every progress sample carries the bytes in the staging file when it was told: those on
/// disk at the start and the first `written_at()[i]` bytes written since, a prefix of all
/// that was written.
pub proof fn lemma_progress_matches_written(t: &Transfer, i: int)
    requires
        t.wf(),
        0 <= i < t.events().len(),
        t.events()[i] is Progress,
    ensures
        t.events()[i]->Progress_0.downloaded == t.start_offset() + t.written_at()[i],
        t.written_at()[i] <= t.written().len(),
{
}

/// A finished transfer has told exactly one terminal event, and it is its last event.
pub proof fn lemma_one_terminal_event(t: &Transfer)
    requires
        t.wf(),
        t.is_finished(),
    ensures
        t.events().len() > 0,
        is_terminal(t.events().last()),
        forall|i: int| 0 <= i < t.events().len() - 1 ==> !is_terminal(#[trigger] t.events()[i]),
{
}

} // verus!
