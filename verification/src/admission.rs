use vstd::prelude::*;

use crate::text::str_eq;

verus! {

/// The admission controller: a shared in-flight gauge with a soft
/// concurrency ceiling.  A `limit` of zero means admission is
/// unconditional.
pub struct Admission {
    pub limit: usize,
    pub in_flight: usize,
}

impl Admission {
    /// Whether a new submission would be admitted in this state.
    pub open spec fn admits(self) -> bool {
        self.limit == 0 || self.in_flight < self.limit
    }

    /// A fresh gauge with the configured ceiling and nothing in flight.
    pub fn new(limit: usize) -> (a: Admission)
        ensures
            a.limit == limit,
            a.in_flight == 0,
    {
        Admission { limit, in_flight: 0 }
    }

    /// Admits a submission while the ceiling is not reached, counting
    /// it; a rejected submission leaves the gauge unchanged and must not
    /// be queued.
    pub fn try_admit(&mut self) -> (admitted: bool)
        requires
            old(self).in_flight < usize::MAX,
        ensures
            admitted == old(self).admits(),
            final(self).limit == old(self).limit,
            admitted ==> final(self).in_flight == old(self).in_flight + 1,
            !admitted ==> final(self).in_flight == old(self).in_flight,
    {
        if self.limit == 0 || self.in_flight < self.limit {
            self.in_flight = self.in_flight + 1;
            true
        } else {
            false
        }
    }

    /// Releases one admitted submission once its full round trip has
    /// completed, including on early failure.
    pub fn release(&mut self)
        requires
            old(self).in_flight >= 1,
        ensures
            final(self).limit == old(self).limit,
            final(self).in_flight == old(self).in_flight - 1,
    {
        self.in_flight = self.in_flight - 1;
    }
}

/// With a positive ceiling, a submission arriving while `limit` tasks
/// are in flight is rejected, and as soon as any of them resolves the
/// next submission is admitted again.
pub proof fn lemma_admission_ceiling(full: Admission, after_release: Admission)
    requires
        full.limit > 0,
        full.in_flight >= full.limit,
        after_release.limit == full.limit,
        after_release.in_flight == full.limit - 1,
    ensures
        !full.admits(),
        after_release.admits(),
{
}

/// What the transport does with one incoming message.
#[derive(Clone, Copy, PartialEq, Eq, Structural, Debug)]
pub enum GateDecision {
    /// The user is enabled and was admitted: submit a task.
    Proceed,
    /// The user is enabled but the ceiling is reached: send the busy
    /// notice and stop.
    Busy,
    /// The user is not enabled and sent the password: enable the user.
    Enable,
    /// The user is not enabled and sent something else: ignore it.
    Ignore,
}

/// The submission-time decision for one incoming message, consulting
/// the admission gauge.  Only a `Proceed` counts against the gauge, and
/// the caller must `release` it when that request's round trip
/// completes.
pub fn gate_message(adm: &mut Admission, enabled: bool, text: &str, password: &str) -> (d:
    GateDecision)
    requires
        old(adm).in_flight < usize::MAX,
    ensures
        final(adm).limit == old(adm).limit,
        (d == GateDecision::Proceed) == (enabled && old(adm).admits()),
        (d == GateDecision::Busy) == (enabled && !old(adm).admits()),
        (d == GateDecision::Enable) == (!enabled && text@ == password@),
        (d == GateDecision::Ignore) == (!enabled && text@ != password@),
        d == GateDecision::Proceed ==> final(adm).in_flight == old(adm).in_flight + 1,
        d != GateDecision::Proceed ==> final(adm).in_flight == old(adm).in_flight,
{
    if enabled {
        if adm.try_admit() {
            GateDecision::Proceed
        } else {
            GateDecision::Busy
        }
    } else if str_eq(text, password) {
        GateDecision::Enable
    } else {
        GateDecision::Ignore
    }
}

} // verus!
