//! The progress value shared between the install pipeline and its observers.

use vstd::prelude::*;

verus! {

/// An exact completion proportion: `num` parts done out of `den`.
///
/// Completion is kept as a pair of integers rather than a floating-point
/// value, so that reported progress can be reasoned about exactly; an
/// observer that wants a ratio for display divides the two fields itself.
#[derive(PartialEq, Eq, Structural, Copy, Clone, Debug)]
pub struct Fraction {
    pub num: u64,
    pub den: u64,
}

impl Fraction {
    /// A fraction denotes a proportion in `[0, 1]`: a positive denominator
    /// and a numerator no greater than it.
    pub open spec fn wf(self) -> bool {
        1 <= self.den && self.num <= self.den
    }

    /// `self` is at most `other`, as rationals.
    pub open spec fn le(self, other: Fraction) -> bool {
        self.num * other.den <= other.num * self.den
    }

    /// `self` is strictly below `other`, as rationals.
    pub open spec fn lt(self, other: Fraction) -> bool {
        self.num * other.den < other.num * self.den
    }

    /// The fraction denotes exactly one: everything is done.
    pub open spec fn is_one(self) -> bool {
        self.num == self.den
    }
}

/// The phase of an install run, observable by the UI at any time.
#[derive(PartialEq, Eq, Structural, Copy, Clone, Debug)]
pub enum InstallPhase {
    /// No install in progress.
    Idle,
    /// The archive is being transferred; the fraction is bytes received
    /// over the declared total.
    Downloading(Fraction),
    /// The archive entries are being materialized; the fraction is entries
    /// processed over the entry count.
    Extracting(Fraction),
}

impl InstallPhase {
    /// A phase is well formed when its fraction, if any, is.
    pub open spec fn wf(self) -> bool {
        match self {
            InstallPhase::Idle => true,
            InstallPhase::Downloading(f) => f.wf(),
            InstallPhase::Extracting(f) => f.wf(),
        }
    }
}

/// The slot through which a running install reports its phase.
///
/// The pipeline is its only writer; observers read it at their own cadence
/// through [`ProgressChannel::get`].  The channel remembers, in ghost state,
/// every phase ever written, so that contracts can speak about the whole
/// sequence of observations a poller could have made.
pub struct ProgressChannel {
    current: InstallPhase,
    history: Ghost<Seq<InstallPhase>>,
}

impl ProgressChannel {
    /// The phase an observer reads right now.
    pub closed spec fn phase(self) -> InstallPhase {
        self.current
    }

    /// Every phase ever written, in write order, the initial `Idle` included.
    pub closed spec fn writes(self) -> Seq<InstallPhase> {
        self.history@
    }

    /// The channel's invariant: the readable value is the last write, and
    /// every write was a well-formed phase.
    pub closed spec fn wf(self) -> bool {
        &&& self.history@.len() >= 1
        &&& self.current == self.history@.last()
        &&& forall|i: int| 0 <= i < self.history@.len() ==> (#[trigger] self.history@[i]).wf()
    }

    /// A fresh channel: idle, with `Idle` as its only write.
    pub fn new() -> (r: ProgressChannel)
        ensures
            r.wf(),
            r.phase() == InstallPhase::Idle,
            r.writes() =~= seq![InstallPhase::Idle],
    {
        let ghost h: Seq<InstallPhase> = seq![InstallPhase::Idle];
        ProgressChannel { current: InstallPhase::Idle, history: Ghost(h) }
    }

    /// Overwrite the current phase; the next `get` by any observer sees it.
    pub fn set(&mut self, phase: InstallPhase)
        requires
            old(self).wf(),
            phase.wf(),
        ensures
            final(self).wf(),
            final(self).phase() == phase,
            final(self).writes() =~= old(self).writes().push(phase),
    {
        self.history = Ghost(self.history@.push(phase));
        self.current = phase;
    }

    /// Read the latest written phase, without blocking.
    pub fn get(&self) -> (r: InstallPhase)
        ensures
            r == self.phase(),
    {
        self.current
    }
}

} // verus!
