//! The folder-load pipeline: staleness check and bounded batching.
//!
//! A folder load re-lists a directory in the background and streams its
//! entries out in batches, bounding memory for huge directories and latency
//! for small ones: a batch is emitted when it reaches [`MAX_BATCH`] entries
//! or when [`FLUSH_INTERVAL_MS`] elapses since the last emission, whichever
//! comes first. The task driving the load performs the listing and the
//! timer; every decision — is the directory stale, when does a batch flush,
//! what the terminal event is — is made here. The task is stopped only by
//! abrupt external termination, so a load's `Done` event may never arrive
//! and consumers must tolerate that.

use vstd::prelude::*;

use crate::entry::{Cha, File};

verus! {

/// A batch flushes as soon as it holds this many entries.
pub const MAX_BATCH: usize = 50000;

/// A non-empty batch flushes when this many milliseconds have elapsed since
/// the last flush, even if it is far below [`MAX_BATCH`].
pub const FLUSH_INTERVAL_MS: u64 = 500;

/// An outbound event of a folder load, tagged with the load's ticket so that
/// consumers can discard events of a superseded generation.
#[derive(Clone, Debug)]
pub enum FilesOp {
    /// One batch of listed entries, in discovery order.
    Part { url: String, files: Vec<File>, ticket: u64 },
    /// The single terminal event of a load: the directory's fresh
    /// fingerprint. All `Part` events of the same ticket precede it.
    Done { url: String, cha: Cha, ticket: u64 },
}

impl FilesOp {
    /// The ticket the event is tagged with.
    pub open spec fn ticket_of(self) -> u64 {
        match self {
            FilesOp::Part { ticket, .. } => ticket,
            FilesOp::Done { ticket, .. } => ticket,
        }
    }

    /// Executable form of [`FilesOp::ticket_of`].
    pub fn ticket(&self) -> (t: u64)
        ensures
            t == self.ticket_of(),
    {
        match self {
            FilesOp::Part { ticket, .. } => *ticket,
            FilesOp::Done { ticket, .. } => *ticket,
        }
    }
}

/// Decide whether a directory must be re-listed: `live` is the directory's
/// fingerprint as read now, `expected` the last known one, if any. Not stale
/// means no work is needed — a success, not an error. With no expectation the
/// directory always counts as stale, since the unknown sentinel hits nothing.
pub fn check_stale(live: Cha, expected: Option<Cha>) -> (r: Option<Cha>)
    ensures
        r == (if (expected is Some && live.spec_hits(expected->0)) {
            Option::<Cha>::None
        } else {
            Some(live)
        }),
{
    let exp = match expected {
        Some(c) => c,
        None => Cha::dummy(),
    };
    if live.hits(exp) {
        None
    } else {
        Some(live)
    }
}

/// The batching state of one folder load: entries accumulate in `buf` until
/// a size or timer flush turns them into a `Part` event, and `finish` closes
/// the load with its single `Done` event.
pub struct FolderLoad {
    /// The directory being re-listed.
    pub url: String,
    /// The generation ticket issued for this load; every emitted event
    /// carries it.
    pub ticket: u64,
    /// Entries accumulated since the last flush, in discovery order.
    pub buf: Vec<File>,
    /// Set by `finish`; no further events can be produced.
    pub done: bool,
}

impl FolderLoad {
    /// The batching invariant: a buffer never reaches the flush size without
    /// having been flushed.
    pub open spec fn wf(self) -> bool {
        self.buf@.len() < MAX_BATCH
    }

    /// Begin the batching for one load, under the ticket issued for it.
    pub fn begin(url: String, ticket: u64) -> (r: FolderLoad)
        ensures
            r.url == url,
            r.ticket == ticket,
            r.buf@ =~= Seq::<File>::empty(),
            !r.done,
            r.wf(),
    {
        FolderLoad { url, ticket, buf: Vec::new(), done: false }
    }

    /// Take in one listed entry. Exactly when the buffer thereby reaches
    /// [`MAX_BATCH`], the full batch flushes as a `Part` event at once,
    /// without waiting for any timer; otherwise the entry is only buffered.
    pub fn push(&mut self, f: File) -> (out: Option<FilesOp>)
        requires
            old(self).wf(),
            !old(self).done,
        ensures
            final(self).wf(),
            !final(self).done,
            final(self).url@ == old(self).url@,
            final(self).ticket == old(self).ticket,
            old(self).buf@.len() + 1 == MAX_BATCH ==> {
                &&& out matches Some(FilesOp::Part { url, files, ticket })
                    && url@ == old(self).url@
                    && files@ == old(self).buf@.push(f)
                    && ticket == old(self).ticket
                &&& final(self).buf@.len() == 0
            },
            old(self).buf@.len() + 1 < MAX_BATCH ==> {
                &&& out is None
                &&& final(self).buf@ == old(self).buf@.push(f)
            },
    {
        self.buf.push(f);
        if self.buf.len() == MAX_BATCH {
            let mut files: Vec<File> = Vec::new();
            core::mem::swap(&mut files, &mut self.buf);
            Some(FilesOp::Part { url: self.url.clone(), files, ticket: self.ticket })
        } else {
            None
        }
    }

    /// The flush timer fired: whatever has accumulated flushes as a `Part`
    /// event, so even a trickle of entries is emitted at least once per
    /// interval; an empty buffer emits nothing.
    pub fn flush(&mut self) -> (out: Option<FilesOp>)
        requires
            old(self).wf(),
            !old(self).done,
        ensures
            final(self).wf(),
            !final(self).done,
            final(self).url@ == old(self).url@,
            final(self).ticket == old(self).ticket,
            final(self).buf@.len() == 0,
            old(self).buf@.len() > 0 ==> (out matches Some(FilesOp::Part { url, files, ticket })
                && url@ == old(self).url@
                && files@ == old(self).buf@
                && ticket == old(self).ticket),
            old(self).buf@.len() == 0 ==> out is None,
    {
        if self.buf.len() == 0 {
            return None;
        }
        let mut files: Vec<File> = Vec::new();
        core::mem::swap(&mut files, &mut self.buf);
        Some(FilesOp::Part { url: self.url.clone(), files, ticket: self.ticket })
    }

    /// The entry stream ended: flush the remainder, if any, and close the
    /// load with its single `Done` event carrying the directory's fresh
    /// fingerprint. The remainder `Part`, when present, is emitted before the
    /// `Done`; afterwards the load can produce nothing further.
    pub fn finish(&mut self, fresh: Cha) -> (out: (Option<FilesOp>, FilesOp))
        requires
            old(self).wf(),
            !old(self).done,
        ensures
            final(self).done,
            old(self).buf@.len() > 0 ==> (out.0 matches Some(FilesOp::Part { url, files, ticket })
                && url@ == old(self).url@
                && files@ == old(self).buf@
                && ticket == old(self).ticket),
            old(self).buf@.len() == 0 ==> out.0 is None,
            out.1 matches FilesOp::Done { url, cha, ticket } && url@ == old(self).url@ && cha
                == fresh && ticket == old(self).ticket,
    {
        let part = self.flush();
        self.done = true;
        let done = FilesOp::Done { url: self.url.clone(), cha: fresh, ticket: self.ticket };
        (part, done)
    }
}

} // verus!
