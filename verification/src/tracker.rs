//! The stateful tracker: debounces per-sample classifications into a stable
//! orientation.
//!
//! A classification that differs from the reported orientation has to be
//! seen on `CONFIRM_SAMPLES` consecutive samples before it is reported.
//! `Unknown` is debounced like every other classification, so one unreliable
//! sample does not erase an established orientation.

use vstd::prelude::*;
use crate::orientation::Orientation;
use crate::sample::AccelSample;

verus! {

/// Number of consecutive samples that must agree on a new classification
/// before the tracker reports it.
pub const CONFIRM_SAMPLES: u8 = 3;

/// The tracker's state as a mathematical value.
pub struct TrackerState {
    /// The orientation that the tracker reports
    pub stable: Orientation,
    /// The classification of the latest sample
    pub pending: Orientation,
    /// How many samples in a row, the latest included, have said `pending`
    /// against `stable`; zero when they agree
    pub streak: nat,
}

impl TrackerState {
    /// The state that reports `orientation` with nothing pending against it.
    pub open spec fn settled_at(orientation: Orientation) -> TrackerState {
        TrackerState { stable: orientation, pending: orientation, streak: 0 }
    }

    /// The state of a tracker that has seen no sample.
    pub open spec fn initial() -> TrackerState {
        TrackerState::settled_at(Orientation::Unknown)
    }

    /// Nothing is pending against the reported orientation.
    pub open spec fn settled(self) -> bool {
        self.streak == 0
    }

    /// The states that a tracker can be in.
    pub open spec fn wf(self) -> bool {
        if self.pending == self.stable {
            self.streak == 0
        } else {
            1 <= self.streak < CONFIRM_SAMPLES
        }
    }

    /// The state after one more sample that by itself says `candidate`.
    pub open spec fn step(self, candidate: Orientation) -> TrackerState {
        if candidate == self.stable {
            TrackerState::settled_at(self.stable)
        } else {
            let streak: nat = if candidate == self.pending {
                self.streak + 1
            } else {
                1
            };
            if streak >= CONFIRM_SAMPLES {
                TrackerState::settled_at(candidate)
            } else {
                TrackerState { stable: self.stable, pending: candidate, streak }
            }
        }
    }

    /// The state after a sequence of samples, the first of them first.
    pub open spec fn feed(self, samples: Seq<AccelSample>) -> TrackerState
        decreases samples.len(),
    {
        if samples.len() == 0 {
            self
        } else {
            self.feed(samples.drop_last()).step(samples.last().candidate())
        }
    }
}

/// Tracks the orientation of one sensor over its stream of samples.
#[derive(Copy, Clone, Debug)]
pub struct Tracker {
    stable: Orientation,
    pending: Orientation,
    streak: u8,
}

impl View for Tracker {
    type V = TrackerState;

    closed spec fn view(&self) -> TrackerState {
        TrackerState { stable: self.stable, pending: self.pending, streak: self.streak as nat }
    }
}

impl Tracker {
    #[verifier::type_invariant]
    spec fn inv(self) -> bool {
        self@.wf()
    }

    /// A tracker that has seen no sample: it reports `Unknown`.
    pub fn new() -> (tracker: Tracker)
        ensures
            tracker@ == TrackerState::initial(),
            tracker@.wf(),
    {
        Tracker { stable: Orientation::Unknown, pending: Orientation::Unknown, streak: 0 }
    }

    /// The orientation that the tracker reports at present.
    pub fn orientation(&self) -> (orientation: Orientation)
        ensures
            orientation == self@.stable,
            self@.wf(),
    {
        proof {
            use_type_invariant(self);
        }
        self.stable
    }

    /// Takes one sample and returns the orientation reported after it.
    ///
    /// The sample is classified by itself; the result replaces the reported
    /// orientation once `CONFIRM_SAMPLES` samples in a row have said it.
    /// Every sample is accepted, and what comes back is always either the
    /// orientation reported before or the sample's own classification.
    pub fn update(&mut self, sample: AccelSample) -> (orientation: Orientation)
        ensures
            old(self)@.wf(),
            final(self)@ == old(self)@.step(sample.candidate()),
            final(self)@.wf(),
            orientation == final(self)@.stable,
            orientation == old(self)@.stable || orientation == sample.candidate(),
    {
        proof {
            use_type_invariant(&*self);
        }
        let candidate: Orientation = sample.classify();
        let next: Tracker = if candidate == self.stable {
            Tracker { stable: self.stable, pending: self.stable, streak: 0 }
        } else {
            let streak: u8 = if candidate == self.pending {
                self.streak + 1
            } else {
                1
            };
            if streak >= CONFIRM_SAMPLES {
                Tracker { stable: candidate, pending: candidate, streak: 0 }
            } else {
                Tracker { stable: self.stable, pending: candidate, streak }
            }
        };
        *self = next;
        next.stable
    }
}

} // verus!
