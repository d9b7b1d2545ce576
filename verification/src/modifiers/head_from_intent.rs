//! Timing of the startle recoil: each entry into `Intent::Startled` opens a
//! window of [`STARTLE_HEAD_TOTAL_MS`], however long the intent holds. The
//! recoil's shape, a floating-point head offset, is applied by the motion
//! layer from the elapsed time this window reports.
use vstd::prelude::*;
use crate::clock::{sat_sub, Instant};
use crate::mind::Intent;

verus! {

/// Fast attack of the recoil, in ms.
pub const STARTLE_HEAD_ATTACK_MS: u64 = 50;
/// Slower decay of the recoil, in ms.
pub const STARTLE_HEAD_DECAY_MS: u64 = 350;
/// Whole recoil window, in ms.
pub const STARTLE_HEAD_TOTAL_MS: u64 = 400;

/// The recoil window: whether the previous tick was startled, and when the
/// running window opened.
#[derive(Debug, Default, Clone, Copy, PartialEq, Eq, Structural)]
pub struct StartleWindow {
    /// The previous tick's intent was `Startled`.
    pub was_startled: bool,
    /// Opening of the running window, if any.
    pub started_at: Option<Instant>,
}

/// The window after a tick with intent `intent` at `now`, and the time into
/// the running window (`None` outside one): a fresh entry into `Startled`
/// opens a window at `now`; a window at or past [`STARTLE_HEAD_TOTAL_MS`]
/// closes.
pub open spec fn spec_startle_tick(w: StartleWindow, intent: Intent, now: Instant) -> (StartleWindow, Option<u64>) {
    let startled = intent == Intent::Startled;
    let start = if startled && !w.was_startled { Some(now) } else { w.started_at };
    match start {
        Some(s) => {
            let e = sat_sub(now@, s@);
            if e >= STARTLE_HEAD_TOTAL_MS {
                (StartleWindow { was_startled: startled, started_at: None }, None)
            } else {
                (StartleWindow { was_startled: startled, started_at: Some(s) }, Some(e))
            }
        },
        None => (StartleWindow { was_startled: startled, started_at: None }, None),
    }
}

impl StartleWindow {
    /// No window open.
    pub fn new() -> (r: Self)
        ensures
            !r.was_startled && r.started_at is None,
    {
        StartleWindow { was_startled: false, started_at: None }
    }

    /// One tick with the entity's intent at `now`: returns the time into the
    /// recoil window, or `None` outside one.
    pub fn observe(&mut self, intent: Intent, now: Instant) -> (r: Option<u64>)
        ensures
            (*final(self), r) == spec_startle_tick(*old(self), intent, now),
    {
        let startled = intent == Intent::Startled;
        if startled && !self.was_startled {
            self.started_at = Some(now);
        }
        self.was_startled = startled;
        match self.started_at {
            Some(start) => {
                let e = now.saturating_duration_since(start);
                if e >= STARTLE_HEAD_TOTAL_MS {
                    self.started_at = None;
                    None
                } else {
                    Some(e)
                }
            },
            None => None,
        }
    }
}

/// However long the intent stays `Startled`, a recoil never reports
/// [`STARTLE_HEAD_TOTAL_MS`] or more of elapsed time, and staying startled
/// never opens a new window.
pub proof fn lemma_recoil_is_bounded(w: StartleWindow, intent: Intent, now: Instant)
    ensures
        spec_startle_tick(w, intent, now).1 matches Some(e) ==> e < STARTLE_HEAD_TOTAL_MS,
        w.was_startled ==> spec_startle_tick(w, intent, now).0.started_at == w.started_at
            || spec_startle_tick(w, intent, now).0.started_at is None,
{
}

} // verus!
