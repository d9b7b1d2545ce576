//! Timing of the listening posture: the head eases into an upward tilt when
//! attention turns to listening and eases back out when it stops, each over
//! [`LISTEN_HEAD_EASE_MS`]. The tilt itself is a floating-point head offset
//! applied by the motion layer from the phase this posture reports.
use vstd::prelude::*;
use crate::clock::{sat_sub, Instant};
use crate::mind::Attention;

verus! {

/// Ease of the listening posture in and out, in ms.
pub const LISTEN_HEAD_EASE_MS: u64 = 200;

/// Where the listening posture stands this tick.
#[derive(Debug, Clone, Copy, PartialEq, Eq, Structural)]
pub enum ListenPhase {
    /// No listening tilt.
    Rest,
    /// Listening, `elapsed_ms` after it began (the tilt eases in, then holds).
    Rising {
        /// Time since listening began, in ms.
        elapsed_ms: u64,
    },
    /// Easing out, `elapsed_ms` (less than the ease) after listening ended.
    Falling {
        /// Time since listening ended, in ms.
        elapsed_ms: u64,
    },
}

/// When listening began, or when it ended while the tilt eases out.
#[derive(Debug, Default, Clone, Copy, PartialEq, Eq, Structural)]
pub struct ListenPosture {
    /// Start of the current listening spell.
    pub listen_since: Option<Instant>,
    /// End of the last listening spell, while easing out.
    pub release_since: Option<Instant>,
}

/// The posture after seeing attention `attention` at `now`: entering
/// listening records its start and drops any release; leaving it records
/// the release.
pub open spec fn spec_listen_edges(p: ListenPosture, attention: Attention, now: Instant) -> ListenPosture {
    let listening = attention is Listening;
    if listening && p.listen_since is None {
        ListenPosture { listen_since: Some(now), release_since: None }
    } else if !listening && p.listen_since is Some {
        ListenPosture { listen_since: None, release_since: Some(now) }
    } else {
        p
    }
}

/// The phase of posture `p` at `now`, and the posture after it: a release
/// whose ease is over is dropped.
pub open spec fn spec_listen_phase(p: ListenPosture, now: Instant) -> (ListenPosture, ListenPhase) {
    match (p.listen_since, p.release_since) {
        (Some(since), _) => (p, ListenPhase::Rising { elapsed_ms: sat_sub(now@, since@) }),
        (None, Some(released)) => {
            let e = sat_sub(now@, released@);
            if e >= LISTEN_HEAD_EASE_MS {
                (ListenPosture { listen_since: None, release_since: None }, ListenPhase::Rest)
            } else {
                (p, ListenPhase::Falling { elapsed_ms: e })
            }
        },
        (None, None) => (p, ListenPhase::Rest),
    }
}

impl ListenPosture {
    /// Not listening, nothing easing.
    pub fn new() -> (r: Self)
        ensures
            r.listen_since is None && r.release_since is None,
    {
        ListenPosture { listen_since: None, release_since: None }
    }

    /// Record the listening edges of this tick's attention.
    pub fn observe(&mut self, attention: Attention, now: Instant)
        ensures
            *final(self) == spec_listen_edges(*old(self), attention, now),
    {
        let listening = match attention {
            Attention::Listening { .. } => true,
            _ => false,
        };
        if listening && self.listen_since.is_none() {
            self.listen_since = Some(now);
            self.release_since = None;
        } else if !listening && self.listen_since.is_some() {
            self.listen_since = None;
            self.release_since = Some(now);
        }
    }

    /// The posture's phase at `now`, for a tick on which no tracked target
    /// steers the head; a finished ease-out is forgotten.
    pub fn phase(&mut self, now: Instant) -> (r: ListenPhase)
        ensures
            (*final(self), r) == spec_listen_phase(*old(self), now),
    {
        match (self.listen_since, self.release_since) {
            (Some(since), _) => ListenPhase::Rising { elapsed_ms: now.saturating_duration_since(since) },
            (None, Some(released)) => {
                let e = now.saturating_duration_since(released);
                if e >= LISTEN_HEAD_EASE_MS {
                    self.release_since = None;
                    ListenPhase::Rest
                } else {
                    ListenPhase::Falling { elapsed_ms: e }
                }
            },
            (None, None) => ListenPhase::Rest,
        }
    }
}

/// A falling phase always lies inside the ease window, and once attention
/// is listening the posture reports a rising phase.
pub proof fn lemma_listen_phases(p: ListenPosture, attention: Attention, now: Instant)
    ensures
        spec_listen_phase(p, now).1 matches ListenPhase::Falling { elapsed_ms } ==> elapsed_ms < LISTEN_HEAD_EASE_MS,
        attention is Listening ==> spec_listen_phase(spec_listen_edges(p, attention, now), now).1 is Rising,
{
}

} // verus!
