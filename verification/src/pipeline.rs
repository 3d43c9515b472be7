//! The install pipeline: one run from `Idle` back to `Idle`.
//!
//! A run claims the progress channel, transfers the archive chunk by
//! chunk, unpacks it, and finally returns the channel to `Idle` whatever
//! happened.  The surrounding application performs the network and
//! filesystem work between the steps and reports every outcome back to
//! the pipeline, which owns all decisions: the error returned, the phase
//! written, and when the run is over.

use crate::progress::{Fraction, InstallPhase, ProgressChannel};
use crate::transfer::{
    clamped_add, classify_response, response_decision, TransferError, TransferTracker,
};
use crate::unpack::{
    aborted_at_escape, aborted_mid_read, entries_escape_free, extract_writes, plan_of, unpack,
    EntryAction, UnpackError,
};
use crate::zipio::{entry_readable, zip_parse, zip_parses};
use vstd::prelude::*;

verus! {

/// Why an install run failed: at the transfer stage or at the unpack
/// stage.
#[derive(PartialEq, Eq, Structural, Copy, Clone, Debug)]
pub enum InstallError {
    /// The transfer stage failed; no archive arrived.
    Transfer(TransferError),
    /// The unpack stage failed; the archive arrived but was not (fully)
    /// materialized.
    Unpack(UnpackError),
}

/// Where in a run the pipeline stands.
enum Stage {
    /// Waiting for the response to the archive request.
    AwaitingResponse,
    /// Receiving the archive's bytes.
    Transferring,
    /// The archive arrived and is being unpacked.
    Unpacking,
    /// The plan is being materialized on disk.
    Materializing,
    /// The run is over.
    Done,
}

/// One install run.  The caller must only start a run while the channel
/// reads `Idle`; the pipeline then holds it in a non-`Idle` phase until
/// the run is over, and every way the run can end — success or any
/// stage's failure — writes `Idle` back.
pub struct InstallPipeline {
    stage: Stage,
    tracker: Option<TransferTracker>,
}

impl InstallPipeline {
    /// The pipeline waits for the response to the archive request.
    pub closed spec fn awaiting_response(self) -> bool {
        self.stage is AwaitingResponse
    }

    /// The pipeline accounts received chunks.
    pub closed spec fn transferring(self) -> bool {
        self.stage is Transferring
    }

    /// The archive arrived; the pipeline waits for its bytes.
    pub closed spec fn unpacking(self) -> bool {
        self.stage is Unpacking
    }

    /// The plan was handed out; the pipeline waits to hear how its
    /// execution went.
    pub closed spec fn materializing(self) -> bool {
        self.stage is Materializing
    }

    /// The run is over.
    pub closed spec fn finished(self) -> bool {
        self.stage is Done
    }

    /// Bytes accounted so far.
    pub closed spec fn received(self) -> u64 {
        self.tracker.unwrap().received()
    }

    /// The total the response declared.
    pub closed spec fn declared_total(self) -> u64 {
        self.tracker.unwrap().declared_total()
    }

    /// The lengths of the chunks accounted so far.
    pub closed spec fn chunk_log(self) -> Seq<u64> {
        self.tracker.unwrap().chunk_log()
    }

    /// The pipeline's invariant.
    pub closed spec fn wf(self) -> bool {
        self.stage is Transferring ==> self.tracker is Some && self.tracker.unwrap().wf()
    }

    /// Begin a run: claim the channel by publishing `Downloading(0 / 1)`.
    ///
    /// A run may only start while the channel reads `Idle`; the caller
    /// gates the action on that, and this precondition records it.
    pub fn start(progress: &mut ProgressChannel) -> (p: InstallPipeline)
        requires
            old(progress).wf(),
            old(progress).phase() == InstallPhase::Idle,
        ensures
            p.wf(),
            p.awaiting_response(),
            final(progress).wf(),
            final(progress).phase() == InstallPhase::Downloading(Fraction { num: 0, den: 1 }),
            final(progress).writes() =~= old(progress).writes().push(
                InstallPhase::Downloading(Fraction { num: 0, den: 1 }),
            ),
    {
        progress.set(InstallPhase::Downloading(Fraction { num: 0, den: 1 }));
        InstallPipeline { stage: Stage::AwaitingResponse, tracker: None }
    }

    /// Take in the response's status and declared length.  On a
    /// non-success status, or no usable total, the run is over: the
    /// channel returns to `Idle` and the transfer error is wrapped and
    /// returned, exactly as `response_decision` says.
    pub fn on_response(
        &mut self,
        status: u16,
        content_length: Option<u64>,
        progress: &mut ProgressChannel,
    ) -> (r: Result<(), InstallError>)
        requires
            old(self).wf(),
            old(self).awaiting_response(),
            old(progress).wf(),
        ensures
            final(self).wf(),
            final(progress).wf(),
            match response_decision(status, content_length) {
                Ok(total) => {
                    &&& r == Ok::<(), InstallError>(())
                    &&& final(self).transferring()
                    &&& final(self).declared_total() == total
                    &&& final(self).received() == 0
                    &&& final(self).chunk_log() =~= Seq::<u64>::empty()
                    &&& *final(progress) == *old(progress)
                },
                Err(e) => {
                    &&& r == Err::<(), InstallError>(InstallError::Transfer(e))
                    &&& final(self).finished()
                    &&& final(progress).phase() == InstallPhase::Idle
                    &&& final(progress).writes() =~= old(progress).writes().push(
                        InstallPhase::Idle,
                    )
                },
            },
    {
        match classify_response(status, content_length) {
            Ok(total) => {
                self.tracker = Some(TransferTracker::begin(total));
                self.stage = Stage::Transferring;
                Ok(())
            },
            Err(e) => {
                self.stage = Stage::Done;
                progress.set(InstallPhase::Idle);
                Err(InstallError::Transfer(e))
            },
        }
    }

    /// Account one received chunk and publish the new fraction: bytes
    /// received over the declared total, clamped to one.
    pub fn on_chunk(&mut self, len: u64, progress: &mut ProgressChannel)
        requires
            old(self).wf(),
            old(self).transferring(),
            old(progress).wf(),
        ensures
            final(self).wf(),
            final(self).transferring(),
            final(self).declared_total() == old(self).declared_total(),
            final(self).chunk_log() =~= old(self).chunk_log().push(len),
            final(self).received() as int == clamped_add(
                old(self).received() as int,
                len as int,
                old(self).declared_total() as int,
            ),
            final(progress).wf(),
            final(progress).phase() == InstallPhase::Downloading(
                Fraction { num: final(self).received(), den: final(self).declared_total() },
            ),
            final(progress).writes() =~= old(progress).writes().push(
                InstallPhase::Downloading(
                    Fraction { num: final(self).received(), den: final(self).declared_total() },
                ),
            ),
            (Fraction { num: old(self).received(), den: old(self).declared_total() }).le(
                Fraction { num: final(self).received(), den: final(self).declared_total() },
            ),
    {
        let mut t = self.tracker.take().unwrap();
        t.record_chunk(len, progress);
        self.tracker = Some(t);
    }

    /// The transfer stage failed after the response: a broken stream is a
    /// failed request, a failed local write an I/O error.  The caller
    /// names which; the run is over either way, the channel returns to
    /// `Idle`, and the error is wrapped and returned.
    pub fn fail_transfer(&mut self, error: TransferError, progress: &mut ProgressChannel) -> (r:
        InstallError)
        requires
            old(self).wf(),
            old(self).awaiting_response() || old(self).transferring(),
            old(progress).wf(),
        ensures
            final(self).wf(),
            final(self).finished(),
            r == InstallError::Transfer(error),
            final(progress).wf(),
            final(progress).phase() == InstallPhase::Idle,
            final(progress).writes() =~= old(progress).writes().push(InstallPhase::Idle),
    {
        self.stage = Stage::Done;
        self.tracker = None;
        progress.set(InstallPhase::Idle);
        InstallError::Transfer(error)
    }

    /// The whole body arrived: the transfer stage is over, and the unpack
    /// stage is announced with `Extracting(0 / 1)` before the archive is
    /// opened.
    pub fn on_transfer_complete(&mut self, progress: &mut ProgressChannel)
        requires
            old(self).wf(),
            old(self).transferring(),
            old(progress).wf(),
        ensures
            final(self).wf(),
            final(self).unpacking(),
            final(progress).wf(),
            final(progress).phase() == InstallPhase::Extracting(Fraction { num: 0, den: 1 }),
            final(progress).writes() =~= old(progress).writes().push(
                InstallPhase::Extracting(Fraction { num: 0, den: 1 }),
            ),
    {
        self.stage = Stage::Unpacking;
        self.tracker = None;
        progress.set(InstallPhase::Extracting(Fraction { num: 0, den: 1 }));
    }

    /// Reading the downloaded archive back from disk failed before it
    /// could be opened.  The run is over: the channel returns to `Idle`
    /// and the failure is reported as an unpack I/O error.
    pub fn fail_unpack(&mut self, progress: &mut ProgressChannel) -> (r: InstallError)
        requires
            old(self).wf(),
            old(self).unpacking(),
            old(progress).wf(),
        ensures
            final(self).wf(),
            final(self).finished(),
            r == InstallError::Unpack(UnpackError::IoError),
            final(progress).wf(),
            final(progress).phase() == InstallPhase::Idle,
            final(progress).writes() =~= old(progress).writes().push(InstallPhase::Idle),
    {
        self.stage = Stage::Done;
        progress.set(InstallPhase::Idle);
        InstallError::Unpack(UnpackError::IoError)
    }

    /// Unpack the downloaded archive into the plan of filesystem actions,
    /// publishing `Extracting(i / n)` before each entry (see
    /// [`crate::unpack::unpack`]).  Exactly the bytes that do not parse
    /// fail with `OpenFailed`, and an archive that parses, reads cleanly
    /// and stays inside the destination is owed a plan.  On any unpack
    /// failure the run is over: the channel returns to `Idle` and the
    /// error is wrapped.
    ///
    /// The whole plan is decoded and checked before anything lands on
    /// disk, so a poller sees the extraction fractions advance while the
    /// entries are decoded, and the last fraction while the plan is
    /// executed.
    pub fn unpack_archive(&mut self, bytes: Vec<u8>, progress: &mut ProgressChannel) -> (r: Result<
        Vec<EntryAction>,
        InstallError,
    >)
        requires
            old(self).wf(),
            old(self).unpacking(),
            old(progress).wf(),
        ensures
            final(self).wf(),
            final(progress).wf(),
            ({
                let entries = zip_parse(bytes@);
                &&& (r matches Ok(plan) ==> {
                    &&& final(self).materializing()
                    &&& entries_escape_free(entries)
                    &&& plan@.map_values(|a: EntryAction| a.model()) =~= plan_of(entries)
                    &&& final(progress).writes() =~= old(progress).writes() + extract_writes(
                        entries.len() as int,
                        entries.len() as int,
                    )
                })
                &&& (r == Err::<Vec<EntryAction>, InstallError>(
                    InstallError::Unpack(UnpackError::OpenFailed),
                ) <==> !zip_parses(bytes@))
                &&& (zip_parses(bytes@) && entries_escape_free(entries) && (forall|i: int|
                    0 <= i < entries.len() ==> #[trigger] entry_readable(bytes@, i)) ==> r is Ok)
                &&& (r matches Err(e) ==> {
                    &&& final(self).finished()
                    &&& final(progress).phase() == InstallPhase::Idle
                    &&& (e == InstallError::Unpack(UnpackError::OpenFailed)
                        ==> final(progress).writes() =~= old(progress).writes().push(
                            InstallPhase::Idle,
                        ))
                    &&& (e == InstallError::Unpack(UnpackError::PathEscape)
                        ==> exists|mid: Seq<InstallPhase>|
                        {
                            &&& #[trigger] aborted_at_escape(old(progress).writes(), mid, entries)
                            &&& final(progress).writes() =~= mid.push(InstallPhase::Idle)
                        })
                    &&& (e == InstallError::Unpack(UnpackError::IoError)
                        ==> exists|mid: Seq<InstallPhase>|
                        {
                            &&& #[trigger] aborted_mid_read(
                                old(progress).writes(),
                                mid,
                                bytes@,
                                entries,
                            )
                            &&& final(progress).writes() =~= mid.push(InstallPhase::Idle)
                        })
                    &&& (e matches InstallError::Unpack(u) ==> (u == UnpackError::OpenFailed || u
                        == UnpackError::PathEscape || u == UnpackError::IoError))
                    &&& (e matches InstallError::Transfer(t) ==> false)
                })
            }),
    {
        let ghost before = progress.writes();
        match unpack(bytes, progress) {
            Ok(plan) => {
                self.stage = Stage::Materializing;
                Ok(plan)
            },
            Err(e) => {
                self.stage = Stage::Done;
                let ghost mid = progress.writes();
                progress.set(InstallPhase::Idle);
                proof {
                    if e == UnpackError::PathEscape {
                        assert(aborted_at_escape(before, mid, zip_parse(bytes@)));
                    }
                    if e == UnpackError::IoError {
                        assert(aborted_mid_read(before, mid, bytes@, zip_parse(bytes@)));
                    }
                }
                Err(InstallError::Unpack(e))
            },
        }
    }

    /// The plan's execution on disk is done, or failed partway.  Either
    /// way the run is over and the channel returns to `Idle`; a failure
    /// is reported as an unpack I/O error, and what was already
    /// materialized stays.
    pub fn finish(&mut self, materialized: bool, progress: &mut ProgressChannel) -> (r: Result<
        (),
        InstallError,
    >)
        requires
            old(self).wf(),
            old(self).materializing(),
            old(progress).wf(),
        ensures
            final(self).wf(),
            final(self).finished(),
            final(progress).wf(),
            final(progress).phase() == InstallPhase::Idle,
            final(progress).writes() =~= old(progress).writes().push(InstallPhase::Idle),
            materialized ==> r == Ok::<(), InstallError>(()),
            !materialized ==> r == Err::<(), InstallError>(
                InstallError::Unpack(UnpackError::IoError),
            ),
    {
        self.stage = Stage::Done;
        progress.set(InstallPhase::Idle);
        if materialized {
            Ok(())
        } else {
            Err(InstallError::Unpack(UnpackError::IoError))
        }
    }
}

} // verus!
