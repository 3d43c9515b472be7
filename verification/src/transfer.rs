//! Transfer-stage decisions: response classification and chunk accounting.
//!
//! The surrounding application performs the HTTP request and hands every
//! received chunk's length to a [`TransferTracker`], which owns the byte
//! accounting and publishes the completion fraction after each chunk.

use crate::progress::{Fraction, InstallPhase, ProgressChannel};
use vstd::prelude::*;

verus! {

/// Why a transfer failed.
#[derive(PartialEq, Eq, Structural, Copy, Clone, Debug)]
pub enum TransferError {
    /// The connection could not be established, or the server answered
    /// with a non-success status.
    RequestFailed,
    /// The response declared no usable total size, so no completion
    /// fraction could be defined.
    NoContentLength,
    /// A local write of the received bytes failed.
    IoError,
}

/// What a transfer does with a response: proceed with the declared total,
/// or fail.  A non-success status fails the request.  A missing total, or
/// a declared total of zero, leaves the completion fraction `bytes
/// received / total` undefined and is rejected.
pub open spec fn response_decision(status: u16, content_length: Option<u64>) -> Result<
    u64,
    TransferError,
> {
    if !(200 <= status < 300) {
        Err(TransferError::RequestFailed)
    } else {
        match content_length {
            Some(total) => if total >= 1 {
                Ok(total)
            } else {
                Err(TransferError::NoContentLength)
            },
            None => Err(TransferError::NoContentLength),
        }
    }
}

/// Decide how a transfer proceeds from the response's HTTP status and its
/// declared content length.
pub fn classify_response(status: u16, content_length: Option<u64>) -> (r: Result<
    u64,
    TransferError,
>)
    ensures
        r == response_decision(status, content_length),
{
    if 200 <= status && status < 300 {
        match content_length {
            Some(total) => if total >= 1 {
                Ok(total)
            } else {
                Err(TransferError::NoContentLength)
            },
            None => Err(TransferError::NoContentLength),
        }
    } else {
        Err(TransferError::RequestFailed)
    }
}

/// Bytes received after one more chunk: the running count grows by the
/// chunk's length, clamped to the declared total since the final chunk may
/// overshoot it.
pub open spec fn clamped_add(done: int, len: int, total: int) -> int {
    if done + len <= total {
        done + len
    } else {
        total
    }
}

/// Bytes received after a whole sequence of chunks, starting from zero.
pub open spec fn received_after(total: u64, chunks: Seq<u64>) -> int
    decreases chunks.len(),
{
    if chunks.len() == 0 {
        0
    } else {
        clamped_add(received_after(total, chunks.drop_last()), chunks.last() as int, total as int)
    }
}

/// The sum of a sequence of chunk lengths.
pub open spec fn chunk_sum(chunks: Seq<u64>) -> int
    decreases chunks.len(),
{
    if chunks.len() == 0 {
        0
    } else {
        chunk_sum(chunks.drop_last()) + chunks.last()
    }
}

/// The fraction reported after the first `k` chunks of `chunks` landed.
pub open spec fn reported_fraction(total: u64, chunks: Seq<u64>, k: int) -> Fraction {
    Fraction { num: received_after(total, chunks.take(k)) as u64, den: total }
}

/// The running byte count equals the chunk sum, clamped to the total.
pub proof fn lemma_received_is_clamped_sum(total: u64, chunks: Seq<u64>)
    requires
        1 <= total,
    ensures
        received_after(total, chunks) == if chunk_sum(chunks) <= total {
            chunk_sum(chunks)
        } else {
            total as int
        },
    decreases chunks.len(),
{
    if chunks.len() > 0 {
        lemma_received_is_clamped_sum(total, chunks.drop_last());
    }
}

/// The running byte count never leaves `[0, total]`.
pub proof fn lemma_received_bounds(total: u64, chunks: Seq<u64>)
    requires
        1 <= total,
    ensures
        0 <= received_after(total, chunks) <= total,
    decreases chunks.len(),
{
    if chunks.len() > 0 {
        lemma_received_bounds(total, chunks.drop_last());
    }
}

/// A prefix of the chunks never accounts for more bytes than the whole.
pub proof fn lemma_received_prefix(total: u64, chunks: Seq<u64>, k: int)
    requires
        1 <= total,
        0 <= k <= chunks.len(),
    ensures
        received_after(total, chunks.take(k)) <= received_after(total, chunks),
    decreases chunks.len() - k,
{
    if k == chunks.len() {
        assert(chunks.take(k) =~= chunks);
    } else {
        assert(chunks.take(k + 1).drop_last() =~= chunks.take(k));
        lemma_received_bounds(total, chunks.take(k));
        lemma_received_prefix(total, chunks, k + 1);
    }
}

/// Fractions over one denominator are ordered as their numerators.
pub proof fn lemma_frac_le_same_den(a: Fraction, b: Fraction)
    requires
        a.wf(),
        b.wf(),
        a.den == b.den,
        a.num <= b.num,
    ensures
        a.le(b),
{
    assert(a.num * b.den <= b.num * a.den) by (nonlinear_arith)
        requires
            a.num <= b.num,
            a.den == b.den,
            1 <= a.den,
    ;
}

/// Law: for any declared total `total >= 1` and any chunk sequence, the
/// `Downloading` fractions a transfer reports are non-decreasing.
pub proof fn lemma_download_fractions_monotone(total: u64, chunks: Seq<u64>, i: int, j: int)
    requires
        1 <= total,
        0 <= i <= j <= chunks.len(),
    ensures
        reported_fraction(total, chunks, i).le(reported_fraction(total, chunks, j)),
{
    assert(chunks.take(j).take(i) =~= chunks.take(i));
    lemma_received_prefix(total, chunks.take(j), i);
    lemma_received_bounds(total, chunks.take(i));
    lemma_received_bounds(total, chunks.take(j));
    lemma_frac_le_same_den(
        reported_fraction(total, chunks, i),
        reported_fraction(total, chunks, j),
    );
}

/// Law: when the chunks sum to the declared total (or past it), the final
/// reported fraction is exactly one.
pub proof fn lemma_download_completes(total: u64, chunks: Seq<u64>)
    requires
        1 <= total,
        chunk_sum(chunks) >= total,
    ensures
        received_after(total, chunks) == total,
        reported_fraction(total, chunks, chunks.len() as int).is_one(),
{
    lemma_received_is_clamped_sum(total, chunks);
    assert(chunks.take(chunks.len() as int) =~= chunks);
}

/// The transfer stage's byte accounting: how much arrived against the
/// response's declared total, with the chunk lengths logged in ghost state
/// so that the reported fractions can be related to the whole run.
pub struct TransferTracker {
    done: u64,
    total: u64,
    chunks: Ghost<Seq<u64>>,
}

impl TransferTracker {
    /// Bytes accounted so far, clamped to the declared total.
    pub closed spec fn received(self) -> u64 {
        self.done
    }

    /// The total size the response declared.
    pub closed spec fn declared_total(self) -> u64 {
        self.total
    }

    /// The lengths of every chunk accounted so far, in arrival order.
    pub closed spec fn chunk_log(self) -> Seq<u64> {
        self.chunks@
    }

    /// The tracker's invariant: the byte count is what the logged chunks
    /// yield, and stays within the declared total.
    pub closed spec fn wf(self) -> bool {
        &&& 1 <= self.total
        &&& self.done <= self.total
        &&& self.done as int == received_after(self.total, self.chunks@)
    }

    /// Start accounting a transfer whose response declared `total` bytes.
    pub fn begin(total: u64) -> (r: TransferTracker)
        requires
            1 <= total,
        ensures
            r.wf(),
            r.declared_total() == total,
            r.received() == 0,
            r.chunk_log() =~= Seq::<u64>::empty(),
    {
        TransferTracker { done: 0, total, chunks: Ghost(Seq::empty()) }
    }

    /// Account one received chunk and publish the new completion fraction:
    /// bytes received over the declared total, clamped so the numerator
    /// never exceeds the denominator.
    pub fn record_chunk(&mut self, len: u64, progress: &mut ProgressChannel)
        requires
            old(self).wf(),
            old(progress).wf(),
        ensures
            final(self).wf(),
            final(self).declared_total() == old(self).declared_total(),
            final(self).chunk_log() =~= old(self).chunk_log().push(len),
            final(self).received() as int == clamped_add(
                old(self).received() as int,
                len as int,
                old(self).declared_total() as int,
            ),
            final(progress).wf(),
            final(progress).phase() == InstallPhase::Downloading(
                Fraction { num: final(self).received(), den: final(self).declared_total() },
            ),
            final(progress).writes() =~= old(progress).writes().push(
                InstallPhase::Downloading(
                    Fraction { num: final(self).received(), den: final(self).declared_total() },
                ),
            ),
            (Fraction { num: old(self).received(), den: old(self).declared_total() }).le(
                Fraction { num: final(self).received(), den: final(self).declared_total() },
            ),
    {
        proof {
            lemma_frac_le_same_den(
                Fraction { num: self.done, den: self.total },
                Fraction {
                    num: clamped_add(self.done as int, len as int, self.total as int) as u64,
                    den: self.total,
                },
            );
        }
        let remaining = self.total - self.done;
        if len >= remaining {
            self.done = self.total;
        } else {
            self.done = self.done + len;
        }
        proof {
            let c = self.chunks@.push(len);
            assert(c.drop_last() =~= old(self).chunks@);
        }
        self.chunks = Ghost(self.chunks@.push(len));
        progress.set(InstallPhase::Downloading(Fraction { num: self.done, den: self.total }));
    }
}

} // verus!
