//! Timing and direction of the head nudge that answers a body-touch
//! gesture. The nudge itself is a floating-point pose driven by the
//! motion layer; its direction is drawn here, deterministically from the
//! gesture's timestamp so replays are stable.
use vstd::prelude::*;
use crate::clock::{sat_sub, Instant};

verus! {

/// Total reaction length, attack plus decay, in ms.
pub const HEADPET_REACTION_TOTAL_MS: u64 = 1_500;

/// Attack length of the reaction, in ms.
pub const HEADPET_REACTION_ATTACK_MS: u64 = 80;

/// The splitmix64 finaliser applied to `x` plus the golden-ratio
/// increment.
pub open spec fn spec_splitmix(x: u64) -> u64 {
    let z = x.wrapping_add(0x9E37_79B9_7F4A_7C15);
    let z = (z ^ (z >> 30u64)).wrapping_mul(0xBF58_476D_1CE4_E5B9);
    let z = (z ^ (z >> 27u64)).wrapping_mul(0x94D0_49BB_1331_11EB);
    z ^ (z >> 31u64)
}

/// Direction of the nudge for a gesture at `at`: whether the pan and the
/// tilt go negative. Bit 0 of the hashed timestamp picks the pan sign,
/// bit 1 the tilt sign.
pub fn reaction_signs(at: Instant) -> (r: (bool, bool))
    ensures
        r.0 == (spec_splitmix(at@) & 1u64 == 1u64),
        r.1 == ((spec_splitmix(at@) >> 1u64) & 1u64 == 1u64),
{
    let ms = at.as_millis();
    let mut z = ms.wrapping_add(0x9E37_79B9_7F4A_7C15);
    z = (z ^ (z >> 30u64)).wrapping_mul(0xBF58_476D_1CE4_E5B9);
    z = (z ^ (z >> 27u64)).wrapping_mul(0x94D0_49BB_1331_11EB);
    z = z ^ (z >> 31u64);
    (z & 1 == 1, (z >> 1u64) & 1 == 1)
}

/// The running reaction: its length, its start, and the last gesture
/// consumed (a gesture is answered once).
#[derive(Debug, Clone, Copy, PartialEq, Eq, Structural)]
pub struct GestureReaction {
    /// Whole reaction length, in ms.
    pub total_ms: u64,
    /// Start of the running reaction (the gesture's time).
    pub started_at: Option<Instant>,
    /// Time of the last gesture answered.
    pub last_consumed_at: Option<Instant>,
}

/// What one tick of the reaction decided.
#[derive(Debug, Clone, Copy, PartialEq, Eq)]
pub struct ReactionTick {
    /// Direction of a reaction started this tick: pan and tilt negative.
    pub new_direction: Option<(bool, bool)>,
    /// Time into the running reaction, if one runs.
    pub elapsed_ms: Option<u64>,
}

/// The reaction and decisions after a tick at `now` that sees `gesture`
/// (whether it calls for a reaction, and when it happened): an eligible
/// gesture not yet answered starts a reaction at its own time, in the
/// direction drawn from that time; a reaction at or past its length ends.
pub open spec fn spec_reaction_tick(g: GestureReaction, gesture: Option<(bool, Instant)>, now: Instant) -> (GestureReaction, ReactionTick) {
    let fresh = gesture matches Some((eligible, at)) && (eligible && g.last_consumed_at != Some(at));
    let at = match gesture {
        Some((_, t)) => t,
        None => now,
    };
    let consumed = if fresh { Some(at) } else { g.last_consumed_at };
    let start = if fresh { Some(at) } else { g.started_at };
    let z = spec_splitmix(at@);
    let direction = if fresh { Some((z & 1u64 == 1u64, (z >> 1u64) & 1u64 == 1u64)) } else { None };
    match start {
        Some(s) => {
            let e = sat_sub(now@, s@);
            if e >= g.total_ms {
                (GestureReaction { total_ms: g.total_ms, started_at: None, last_consumed_at: consumed },
                 ReactionTick { new_direction: direction, elapsed_ms: None })
            } else {
                (GestureReaction { total_ms: g.total_ms, started_at: start, last_consumed_at: consumed },
                 ReactionTick { new_direction: direction, elapsed_ms: Some(e) })
            }
        },
        None => (GestureReaction { total_ms: g.total_ms, started_at: None, last_consumed_at: consumed },
                 ReactionTick { new_direction: direction, elapsed_ms: None }),
    }
}

impl GestureReaction {
    /// Default length, nothing running or answered.
    pub fn new() -> (r: Self)
        ensures
            r.total_ms == HEADPET_REACTION_TOTAL_MS,
            r.started_at is None,
            r.last_consumed_at is None,
    {
        GestureReaction { total_ms: HEADPET_REACTION_TOTAL_MS, started_at: None, last_consumed_at: None }
    }

    /// One tick at `now` seeing the latest gesture, if any: whether it calls
    /// for a reaction and when it happened.
    pub fn observe(&mut self, gesture: Option<(bool, Instant)>, now: Instant) -> (r: ReactionTick)
        ensures
            (*final(self), r) == spec_reaction_tick(*old(self), gesture, now),
    {
        let mut direction: Option<(bool, bool)> = None;
        if let Some((eligible, at)) = gesture {
            if eligible && self.last_consumed_at != Some(at) {
                self.last_consumed_at = Some(at);
                self.started_at = Some(at);
                direction = Some(reaction_signs(at));
            }
        }
        match self.started_at {
            Some(s) => {
                let e = now.saturating_duration_since(s);
                if e >= self.total_ms {
                    self.started_at = None;
                    ReactionTick { new_direction: direction, elapsed_ms: None }
                } else {
                    ReactionTick { new_direction: direction, elapsed_ms: Some(e) }
                }
            },
            None => ReactionTick { new_direction: direction, elapsed_ms: None },
        }
    }
}

/// A gesture is answered at most once: seeing the same gesture again starts
/// no new reaction.
pub proof fn lemma_gesture_answered_once(g: GestureReaction, eligible: bool, at: Instant, now: Instant, later: Instant)
    ensures
        spec_reaction_tick(spec_reaction_tick(g, Some((eligible, at)), now).0, Some((eligible, at)), later).1.new_direction is None,
{
}

} // verus!
