//! The resume protocol of a streamed download: a running count of the
//! bytes already delivered to the caller, used as the range start of the
//! next request whenever the in-progress stream breaks, so that across
//! any number of retries the caller receives every byte exactly once and
//! in order.

use vstd::prelude::*;

verus! {

/// The state of one resumable download session.
///
/// The driver issues a download request whose byte range starts at
/// [`request_range`](Self::request_range), records every chunk of the
/// response stream it hands to the caller, and, when a mid-stream read
/// fails, simply issues a new request: the range start has already
/// advanced past everything delivered. A failure of the request itself is
/// terminal and is not retried; there is no cap on the number of
/// mid-stream resumptions.
pub struct ResumableDownload {
    bytes_out: u64,
    start: Ghost<u64>,
    delivered: Ghost<Seq<u8>>,
}

impl ResumableDownload {
    /// The byte offset the session began at.
    pub closed spec fn start_spec(&self) -> u64 {
        self.start@
    }

    /// The bytes handed to the caller so far, in delivery order.
    pub closed spec fn delivered_spec(&self) -> Seq<u8> {
        self.delivered@
    }

    /// The offset the next request resumes at.
    pub closed spec fn bytes_out_spec(&self) -> u64 {
        self.bytes_out
    }

    /// The session counts exactly the bytes delivered since its start:
    /// deliveries are contiguous, with no gap and no duplicate.
    pub open spec fn wf(&self) -> bool {
        self.bytes_out_spec() == self.start_spec() + self.delivered_spec().len()
    }

    /// Begin a session that resumes at the given offset (zero for a fresh
    /// download).
    pub fn new(start_offset: u64) -> (d: Self)
        ensures
            d.wf(),
            d.start_spec() == start_offset,
            d.delivered_spec() == Seq::<u8>::empty(),
            d.bytes_out_spec() == start_offset,
    {
        ResumableDownload {
            bytes_out: start_offset,
            start: Ghost(start_offset),
            delivered: Ghost(Seq::empty()),
        }
    }

    /// The byte range of the next request: open-ended, starting exactly
    /// where delivery stopped. This is the range of the first request and
    /// of every request issued after a mid-stream read failure.
    pub fn request_range(&self) -> (r: (Option<u64>, Option<u64>))
        ensures
            r == (Some(self.bytes_out_spec()), None::<u64>),
    {
        (Some(self.bytes_out), None)
    }

    /// Record one chunk of the response stream handed to the caller: the
    /// delivered bytes grow by exactly this chunk, and the resume offset
    /// advances past it. Returns false, changing nothing, in the one case
    /// the count cannot represent: a total beyond the range of the
    /// counter.
    pub fn record_chunk(&mut self, chunk: &[u8]) -> (ok: bool)
        requires
            old(self).wf(),
        ensures
            final(self).wf(),
            ok <==> old(self).bytes_out_spec() + chunk@.len() <= u64::MAX,
            ok ==> final(self).delivered_spec() == old(self).delivered_spec() + chunk@,
            ok ==> final(self).bytes_out_spec() == old(self).bytes_out_spec() + chunk@.len(),
            ok ==> final(self).start_spec() == old(self).start_spec(),
            !ok ==> *final(self) == *old(self),
    {
        let len: u64 = chunk.len() as u64;
        match self.bytes_out.checked_add(len) {
            Some(n) => {
                self.bytes_out = n;
                self.delivered = Ghost(self.delivered@ + chunk@);
                true
            },
            None => false,
        }
    }
}

} // verus!
