//! Accounting for a download that arrives in chunks.
//!
//! The caller owns the connection. It opens a [`Download`] with the total
//! length the server declared, hands over each chunk as it arrives, and
//! closes the download when the stream is drained. Every step returns the
//! progress event to publish.

use vstd::prelude::*;
use crate::error::ErrorKind;
use crate::error::ErrorView;
use crate::error::InstallError;
use crate::progress::DownloadProgress;

verus! {

/// A download in progress: the declared total and the bytes received so far.
pub struct Download {
    total: u64,
    buffer: Vec<u8>,
}

/// The mathematical value of a [`Download`].
pub struct DownloadView {
    /// The declared total length; zero when none was declared.
    pub total: nat,
    /// Everything received so far, in order of arrival.
    pub received: Seq<u8>,
}

impl View for Download {
    type V = DownloadView;

    closed spec fn view(&self) -> DownloadView {
        DownloadView { total: self.total as nat, received: self.buffer@ }
    }
}

/// The total that counts for a declared length: a missing declaration and a
/// declared length of zero both mean that the total is unknown, written 0.
pub open spec fn known_total(declared: Option<u64>) -> nat {
    match declared {
        Some(total) => total as nat,
        None => 0,
    }
}

/// The error for a chunk that could not be read.
pub open spec fn stream_failure(detail: Seq<char>) -> ErrorView {
    ErrorView { kind: ErrorKind::Stream, message: detail }
}

impl Download {
    /// Opens a download. `declared` is the total length the response
    /// declared, if it declared one. Returns the download and the opening
    /// event at 0%.
    pub fn start(declared: Option<u64>) -> (r: (Download, DownloadProgress))
        ensures
            r.0@ == (DownloadView { total: known_total(declared), received: Seq::empty() }),
            r.1 == DownloadProgress::spec_started(),
    {
        let total = match declared {
            Some(total) => total,
            None => 0,
        };
        (Download { total, buffer: Vec::new() }, DownloadProgress::started())
    }

    /// Appends one chunk and returns its event. With a known total the
    /// event's percentage is `received / total`, counting this chunk; with
    /// an unknown total it is 0%.
    pub fn receive(&mut self, chunk: &[u8]) -> (event: DownloadProgress)
        ensures
            final(self)@.total == old(self)@.total,
            final(self)@.received == old(self)@.received + chunk@,
            event == DownloadProgress::spec_receiving(
                final(self)@.received.len(),
                final(self)@.total,
            ),
    {
        self.buffer.extend_from_slice(chunk);
        assert(self.buffer@ =~= old(self).buffer@ + chunk@);
        DownloadProgress::receiving(self.buffer.len() as u64, self.total)
    }

    /// The number of bytes received so far.
    pub fn received(&self) -> (n: u64)
        ensures
            n == self@.received.len(),
    {
        self.buffer.len() as u64
    }

    /// The declared total, if one is known.
    pub fn total(&self) -> (t: Option<u64>)
        ensures
            t == if self@.total == 0 {
                None
            } else {
                Some(self@.total as u64)
            },
    {
        if self.total == 0 {
            None
        } else {
            Some(self.total)
        }
    }

    /// Closes a drained download: hands out everything that was received,
    /// with the closing event at 100%.
    pub fn finish(self) -> (r: (Vec<u8>, DownloadProgress))
        ensures
            r.0@ == self@.received,
            r.1 == DownloadProgress::spec_downloaded(),
    {
        (self.buffer, DownloadProgress::downloaded())
    }

    /// Abandons a download whose stream failed. What was received is
    /// dropped; the result is the stream error that carries `detail`.
    pub fn fail(self, detail: &str) -> (e: InstallError)
        ensures
            e@ == stream_failure(detail@),
    {
        InstallError::new(ErrorKind::Stream, detail)
    }
}

/// The number of bytes in the first `k` of the chunks whose sizes are
/// `sizes`.
pub open spec fn received_after(sizes: Seq<nat>, k: int) -> nat
    decreases k,
{
    if k <= 0 {
        0
    } else {
        received_after(sizes, k - 1) + sizes[k - 1]
    }
}

/// The events of a download that runs to its end: the opening event, one
/// event per chunk, and the closing event.
pub open spec fn progress_trace(total: nat, sizes: Seq<nat>) -> Seq<DownloadProgress> {
    Seq::new(
        sizes.len() + 2,
        |i: int|
            if i == 0 {
                DownloadProgress::spec_started()
            } else if i <= sizes.len() {
                DownloadProgress::spec_receiving(received_after(sizes, i), total)
            } else {
                DownloadProgress::spec_downloaded()
            },
    )
}

/// The sizes of `chunks`, in order.
pub open spec fn sizes_of(chunks: Seq<Seq<u8>>) -> Seq<nat> {
    Seq::new(chunks.len(), |i: int| chunks[i].len())
}

/// The first `k` of `chunks`, one after the other: what a download holds
/// once it has received them.
pub open spec fn joined(chunks: Seq<Seq<u8>>, k: int) -> Seq<u8>
    decreases k,
{
    if k <= 0 {
        Seq::empty()
    } else {
        joined(chunks, k - 1) + chunks[k - 1]
    }
}

/// A download that has received the first `k` of `chunks` holds as many
/// bytes as their sizes add up to, so the event of chunk `k` is event `k` of
/// the trace.
pub proof fn events_follow_the_trace(total: nat, chunks: Seq<Seq<u8>>, k: int)
    requires
        0 <= k <= chunks.len(),
    ensures
        joined(chunks, k).len() == received_after(sizes_of(chunks), k),
        k >= 1 ==> DownloadProgress::spec_receiving(joined(chunks, k).len(), total)
            == progress_trace(total, sizes_of(chunks))[k],
    decreases k,
{
    if k > 0 {
        events_follow_the_trace(total, chunks, k - 1);
    }
}

/// The byte count never shrinks from one chunk to the next.
pub proof fn received_grows(sizes: Seq<nat>, i: int, j: int)
    requires
        i <= j,
    ensures
        received_after(sizes, i) <= received_after(sizes, j),
    decreases j - i,
{
    if i < j {
        received_grows(sizes, i, j - 1);
    }
}

/// With a known total that the chunk sizes add up to, the percentages of
/// the events never decrease from one event to the next, the event of the
/// last chunk is at exactly 100%, and so is the closing event.
pub proof fn known_total_is_monotonic(total: nat, sizes: Seq<nat>)
    requires
        0 < total <= u64::MAX,
        received_after(sizes, sizes.len() as int) == total,
    ensures
        forall|i: int, j: int|
            0 <= i <= j < sizes.len() + 2 ==> (#[trigger] progress_trace(
                total,
                sizes,
            )[i]).percentage.at_most((#[trigger] progress_trace(total, sizes)[j]).percentage),
        forall|i: int|
            0 <= i < sizes.len() + 2 ==> (#[trigger] progress_trace(total, sizes)[i]).percentage.wf(),
        progress_trace(total, sizes).last().percentage.is_full(),
        sizes.len() > 0 ==> progress_trace(total, sizes)[sizes.len() as int].percentage.is_full(),
{
    let trace = progress_trace(total, sizes);
    let n = sizes.len() as int;
    assert forall|i: int, j: int| 0 <= i <= j < n + 2 implies (#[trigger] trace[i]).percentage.at_most(
        (#[trigger] trace[j]).percentage,
    ) by {
        let a = if i <= n { i } else { n };
        let b = if j <= n { j } else { n };
        received_grows(sizes, a, b);
        received_grows(sizes, a, n);
        received_grows(sizes, b, n);
        let x = received_after(sizes, a);
        let y = received_after(sizes, b);
        assert(x <= y <= total);
        assert(x * total <= y * total) by (nonlinear_arith)
            requires
                x <= y,
                0 < total,
        ;
        assert(x * 1 <= 1 * total);
    }
}

/// With an unknown total every event before the closing one is at exactly
/// 0%, whatever the chunks are; the closing event is at 100%.
pub proof fn unknown_total_stays_at_zero(sizes: Seq<nat>)
    ensures
        forall|i: int|
            0 <= i <= sizes.len() ==> (#[trigger] progress_trace(0, sizes)[i]).percentage.is_zero(),
        progress_trace(0, sizes).last().percentage.is_full(),
{
}

} // verus!
