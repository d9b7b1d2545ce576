//! Timing of the "where did they go?" search beat after a face lock drops:
//! the falling edge of engagement starts a beat of hold, saccade and return;
//! a fresh lock cancels it. The beat's head offset, a floating-point pose
//! toward the last-seen face, is applied by the motion layer from the phase
//! this module reports.
use vstd::prelude::*;
use crate::clock::{sat_sub, Instant};

verus! {

/// Hold at the last-seen pose, in ms.
pub const SEARCH_HOLD_MS: u64 = 500;
/// The look-further saccade, in ms.
pub const SEARCH_SACCADE_MS: u64 = 300;
/// The ramp back to no contribution, in ms.
pub const SEARCH_RETURN_MS: u64 = 1_000;
/// Whole search beat, in ms.
pub const SEARCH_TOTAL_MS: u64 = 1_800;

/// Where a beat stands, `elapsed` into it.
#[derive(Debug, Clone, Copy, PartialEq, Eq, Structural)]
pub enum BeatPhase {
    /// Holding at the last-seen pose.
    Hold,
    /// Extending past it, `into_ms` into the saccade.
    Saccade {
        /// Time into the saccade, in ms.
        into_ms: u64,
    },
    /// Returning, `into_ms` into the return.
    Return {
        /// Time into the return, in ms.
        into_ms: u64,
    },
    /// The beat is over.
    Done,
}

/// The phase `elapsed_ms` into a beat.
pub open spec fn spec_beat_phase(elapsed_ms: u64) -> BeatPhase {
    if elapsed_ms < SEARCH_HOLD_MS {
        BeatPhase::Hold
    } else if elapsed_ms < SEARCH_HOLD_MS + SEARCH_SACCADE_MS {
        BeatPhase::Saccade { into_ms: (elapsed_ms - SEARCH_HOLD_MS) as u64 }
    } else if elapsed_ms < SEARCH_TOTAL_MS {
        BeatPhase::Return { into_ms: (elapsed_ms - SEARCH_HOLD_MS - SEARCH_SACCADE_MS) as u64 }
    } else {
        BeatPhase::Done
    }
}

/// The phase `elapsed_ms` into a beat.
pub fn beat_phase(elapsed_ms: u64) -> (r: BeatPhase)
    ensures
        r == spec_beat_phase(elapsed_ms),
{
    if elapsed_ms < SEARCH_HOLD_MS {
        BeatPhase::Hold
    } else if elapsed_ms < SEARCH_HOLD_MS + SEARCH_SACCADE_MS {
        BeatPhase::Saccade { into_ms: elapsed_ms - SEARCH_HOLD_MS }
    } else if elapsed_ms < SEARCH_TOTAL_MS {
        BeatPhase::Return { into_ms: elapsed_ms - SEARCH_HOLD_MS - SEARCH_SACCADE_MS }
    } else {
        BeatPhase::Done
    }
}

/// What one tick of the search decided.
#[derive(Debug, Clone, Copy, PartialEq, Eq, Structural)]
pub struct SearchTick {
    /// A beat started this tick: the last-seen face becomes its target.
    pub started: bool,
    /// The last-seen face should be forgotten (disengaged, no beat).
    pub forget: bool,
    /// Time into the running beat, if one runs.
    pub elapsed_ms: Option<u64>,
}

/// The engagement edge detector and the running beat.
#[derive(Debug, Default, Clone, Copy, PartialEq, Eq, Structural)]
pub struct SearchBeat {
    /// Engagement on the previous tick.
    pub prev_engaged: bool,
    /// Start of the running beat.
    pub started_at: Option<Instant>,
}

/// The beat and decisions after a tick at `now` with engagement `engaged`
/// and `seen` telling whether a last-seen face is remembered: losing the
/// lock with a remembered face starts a beat; gaining a lock cancels it;
/// disengaged without a beat, the face is forgotten; a beat at or past
/// [`SEARCH_TOTAL_MS`] ends.
pub open spec fn spec_search_tick(b: SearchBeat, engaged: bool, seen: bool, now: Instant) -> (SearchBeat, SearchTick) {
    let starts = b.prev_engaged && !engaged && seen;
    let beat = if starts { Some(now) } else if engaged && !b.prev_engaged { None } else { b.started_at };
    let forget = !engaged && beat is None;
    match beat {
        Some(s) => {
            let e = sat_sub(now@, s@);
            if e >= SEARCH_TOTAL_MS {
                (SearchBeat { prev_engaged: engaged, started_at: None }, SearchTick { started: starts, forget, elapsed_ms: None })
            } else {
                (SearchBeat { prev_engaged: engaged, started_at: beat }, SearchTick { started: starts, forget, elapsed_ms: Some(e) })
            }
        },
        None => (SearchBeat { prev_engaged: engaged, started_at: None }, SearchTick { started: starts, forget, elapsed_ms: None }),
    }
}

impl SearchBeat {
    /// Disengaged, no beat.
    pub fn new() -> (r: Self)
        ensures
            !r.prev_engaged && r.started_at is None,
    {
        SearchBeat { prev_engaged: false, started_at: None }
    }

    /// One tick at `now`: `engaged` is the engagement state, `seen` whether
    /// a last-seen face is remembered.
    pub fn observe(&mut self, engaged: bool, seen: bool, now: Instant) -> (r: SearchTick)
        ensures
            (*final(self), r) == spec_search_tick(*old(self), engaged, seen, now),
    {
        let starts = self.prev_engaged && !engaged && seen;
        if starts {
            self.started_at = Some(now);
        }
        if engaged && !self.prev_engaged {
            self.started_at = None;
        }
        self.prev_engaged = engaged;
        let forget = !engaged && self.started_at.is_none();
        match self.started_at {
            Some(s) => {
                let e = now.saturating_duration_since(s);
                if e >= SEARCH_TOTAL_MS {
                    self.started_at = None;
                    SearchTick { started: starts, forget, elapsed_ms: None }
                } else {
                    SearchTick { started: starts, forget, elapsed_ms: Some(e) }
                }
            },
            None => SearchTick { started: starts, forget, elapsed_ms: None },
        }
    }
}

/// A running beat is never reported done, and while engaged no beat runs
/// past the tick that regains the lock.
pub proof fn lemma_search_beat(b: SearchBeat, engaged: bool, seen: bool, now: Instant)
    ensures
        spec_search_tick(b, engaged, seen, now).1.elapsed_ms matches Some(e) ==> spec_beat_phase(e) != BeatPhase::Done,
        engaged && !b.prev_engaged ==> spec_search_tick(b, engaged, seen, now).1.elapsed_ms is None,
{
}

} // verus!
