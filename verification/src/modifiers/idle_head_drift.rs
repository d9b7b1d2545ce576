//! Timing of the idle head glances: when the next glance starts, how long it
//! runs, and the random draws that pick its direction. Between glances the
//! head is still; while the entity sleeps nothing is scheduled. The glance
//! itself, a floating-point head offset, is applied by the motion layer.
use vstd::prelude::*;
use crate::clock::{after, lemma_instant_add_view, lemma_instant_at_view, lemma_instant_view_ext, sat_sub, Instant};
use crate::rng::{delay_from, delay_from_raw, lemma_xorshift32_nonzero, xorshift32, xorshift32_next};

verus! {

/// Default generator seed, distinct from the other idle modifiers' seeds.
pub const DEFAULT_SEED: u32 = 0xBEEF_CAFE;
/// Shortest still spell between glances, in ms.
pub const GLANCE_INTERVAL_MIN_MS: u64 = 5_000;
/// Longest still spell between glances, in ms.
pub const GLANCE_INTERVAL_MAX_MS: u64 = 15_000;
/// Ease into a glance, in ms.
pub const GLANCE_EASE_IN_MS: u64 = 250;
/// Hold of a glance at its target, in ms.
pub const GLANCE_HOLD_MS: u64 = 600;
/// Ease out of a glance, in ms.
pub const GLANCE_EASE_OUT_MS: u64 = 350;
/// Whole glance: ease in, hold, ease out.
pub const GLANCE_TOTAL_MS: u64 = 1_200;

/// Two generator outputs that pick a glance's pan and tilt.
#[derive(Debug, Clone, Copy, PartialEq, Eq, Structural)]
pub struct GlanceDraws {
    /// Output for the pan.
    pub pan: u32,
    /// Output for the tilt.
    pub tilt: u32,
}

/// What the head does this tick.
#[derive(Debug, Clone, Copy, PartialEq, Eq, Structural)]
pub enum GlanceTick {
    /// No glance in flight: the head is still.
    Still,
    /// A glance is in flight, `elapsed_ms` after it started. On the tick it
    /// starts, `draws` holds the two generator outputs that pick its pan and
    /// tilt; otherwise `None`.
    Glancing {
        /// Time since the glance started, in ms.
        elapsed_ms: u64,
        /// Generator outputs for pan and tilt, on the starting tick.
        draws: Option<GlanceDraws>,
    },
}

/// The glance scheduler: generator state, the running glance, the next one.
#[derive(Debug, Clone, Copy)]
pub struct GlanceSchedule {
    rng_state: u32,
    active_since: Option<Instant>,
    next_glance_at: Option<Instant>,
}

/// The state and outcome of one tick from generator state `rng`, running
/// glance `active`, scheduled glance `next`, at `now`: asleep, everything is
/// dropped; otherwise a glance is scheduled when none is pending, the
/// pending one starts once due (drawing its direction), and a glance past
/// [`GLANCE_TOTAL_MS`] ends and schedules the next.
pub open spec fn spec_glance_tick(rng: u32, active: Option<Instant>, next: Option<Instant>, asleep: bool, now: Instant)
    -> (u32, Option<Instant>, Option<Instant>, GlanceTick)
{
    if asleep {
        (rng, None, None, GlanceTick::Still)
    } else {
        let sched = if next is None && active is None {
            let r = xorshift32(rng);
            (r, Some(after(now, delay_from(r, GLANCE_INTERVAL_MIN_MS, GLANCE_INTERVAL_MAX_MS))))
        } else {
            (rng, next)
        };
        let starts = active is None && (sched.1 matches Some(at) && now@ >= at@);
        let a = xorshift32(sched.0);
        let b = xorshift32(a);
        let rng2 = if starts { b } else { sched.0 };
        let active2 = if starts { Some(now) } else { active };
        let next2 = if starts { None } else { sched.1 };
        let draws: Option<GlanceDraws> = if starts { Some(GlanceDraws { pan: a, tilt: b }) } else { None };
        match active2 {
            Some(since) => {
                let e = sat_sub(now@, since@);
                if e >= GLANCE_TOTAL_MS {
                    let r = xorshift32(rng2);
                    (r, None, Some(after(now, delay_from(r, GLANCE_INTERVAL_MIN_MS, GLANCE_INTERVAL_MAX_MS))), GlanceTick::Still)
                } else {
                    (rng2, active2, next2, GlanceTick::Glancing { elapsed_ms: e, draws })
                }
            },
            None => (rng2, None, next2, GlanceTick::Still),
        }
    }
}

impl GlanceSchedule {
    /// The generator never sits at zero.
    #[verifier::type_invariant]
    spec fn rng_alive(self) -> bool {
        self.rng_state != 0
    }

    /// Generator state.
    pub closed spec fn rng(&self) -> u32 {
        self.rng_state
    }

    /// Start of the running glance.
    pub closed spec fn active_since(&self) -> Option<Instant> {
        self.active_since
    }

    /// When the next glance is due.
    pub closed spec fn next_at(&self) -> Option<Instant> {
        self.next_glance_at
    }

    /// A scheduler with the default seed, nothing scheduled.
    pub fn new() -> (r: Self)
        ensures
            r.rng() == DEFAULT_SEED,
            r.active_since() is None,
            r.next_at() is None,
    {
        GlanceSchedule { rng_state: DEFAULT_SEED, active_since: None, next_glance_at: None }
    }

    /// A scheduler with a custom, non-zero seed (a zero seed would stick
    /// the generator at zero).
    pub fn with_seed(seed: u32) -> (r: Self)
        requires
            seed != 0,
        ensures
            r.rng() == seed,
            r.active_since() is None,
            r.next_at() is None,
    {
        GlanceSchedule { rng_state: seed, active_since: None, next_glance_at: None }
    }

    fn draw(&mut self) -> (r: u32)
        ensures
            r == xorshift32(old(self).rng()),
            final(self).rng() == r,
            final(self).active_since() == old(self).active_since(),
            final(self).next_at() == old(self).next_at(),
    {
        proof {
            use_type_invariant(&*self);
            lemma_xorshift32_nonzero(self.rng_state);
        }
        let x = xorshift32_next(self.rng_state);
        self.rng_state = x;
        x
    }

    fn schedule_next(&mut self, now: Instant)
        ensures
            final(self).rng() == xorshift32(old(self).rng()),
            final(self).active_since() == old(self).active_since(),
            final(self).next_at() == Some(after(now, delay_from(xorshift32(old(self).rng()), GLANCE_INTERVAL_MIN_MS, GLANCE_INTERVAL_MAX_MS))),
    {
        proof {
            broadcast use lemma_instant_add_view, lemma_instant_at_view, lemma_instant_view_ext;
        }
        let raw = self.draw();
        let dwell = delay_from_raw(raw, GLANCE_INTERVAL_MIN_MS, GLANCE_INTERVAL_MAX_MS);
        let at = now + dwell;
        assert(at@ == after(now, dwell)@);
        proof {
            use_type_invariant(&*self);
        }
        self.next_glance_at = Some(at);
    }

    /// One tick at `now`, `asleep` telling whether the entity sleeps.
    pub fn observe(&mut self, asleep: bool, now: Instant) -> (r: GlanceTick)
        ensures
            ({
                let t = spec_glance_tick(old(self).rng(), old(self).active_since(), old(self).next_at(), asleep, now);
                &&& final(self).rng() == t.0
                &&& final(self).active_since() == t.1
                &&& final(self).next_at() == t.2
                &&& r == t.3
            }),
    {
        proof {
            use_type_invariant(&*self);
        }
        if asleep {
            self.active_since = None;
            self.next_glance_at = None;
            return GlanceTick::Still;
        }
        if self.next_glance_at.is_none() && self.active_since.is_none() {
            self.schedule_next(now);
        }
        let mut draws: Option<GlanceDraws> = None;
        if self.active_since.is_none() {
            if let Some(at) = self.next_glance_at {
                if now.as_millis() >= at.as_millis() {
                    let a = self.draw();
                    let b = self.draw();
                    draws = Some(GlanceDraws { pan: a, tilt: b });
                    proof {
                        use_type_invariant(&*self);
                    }
                    self.active_since = Some(now);
                    self.next_glance_at = None;
                }
            }
        }
        match self.active_since {
            Some(since) => {
                let e = now.saturating_duration_since(since);
                if e >= GLANCE_TOTAL_MS {
                    proof {
                        use_type_invariant(&*self);
                    }
                    self.active_since = None;
                    self.schedule_next(now);
                    GlanceTick::Still
                } else {
                    GlanceTick::Glancing { elapsed_ms: e, draws }
                }
            },
            None => GlanceTick::Still,
        }
    }
}

impl Default for GlanceSchedule {
    fn default() -> (r: Self)
        ensures
            r.rng() == DEFAULT_SEED,
            r.active_since() is None,
            r.next_at() is None,
    {
        Self::new()
    }
}

/// Every glance time the scheduler holds after a tick is either the one it
/// held before or a fresh one between [`GLANCE_INTERVAL_MIN_MS`] and
/// [`GLANCE_INTERVAL_MAX_MS`] after that tick (saturating at the end of the
/// clock range).
pub proof fn lemma_glance_gap_in_window(rng: u32, active: Option<Instant>, next: Option<Instant>, asleep: bool, now: Instant)
    ensures
        spec_glance_tick(rng, active, next, asleep, now).2 matches Some(at) ==> {
            ||| next == Some(at)
            ||| (now@ + GLANCE_INTERVAL_MIN_MS <= at@ <= now@ + GLANCE_INTERVAL_MAX_MS)
            ||| at@ == u64::MAX
        },
{
    broadcast use lemma_instant_at_view;
    let span: int = GLANCE_INTERVAL_MAX_MS - GLANCE_INTERVAL_MIN_MS + 1;
    assert forall|r: u32| #![trigger delay_from(r, GLANCE_INTERVAL_MIN_MS, GLANCE_INTERVAL_MAX_MS)]
        GLANCE_INTERVAL_MIN_MS <= delay_from(r, GLANCE_INTERVAL_MIN_MS, GLANCE_INTERVAL_MAX_MS) <= GLANCE_INTERVAL_MAX_MS by {
        assert(0 <= (r as int) % span < span);
    }
}

/// Asleep, nothing runs and nothing is scheduled.
pub proof fn lemma_sleep_clears_glances(rng: u32, active: Option<Instant>, next: Option<Instant>, now: Instant)
    ensures
        spec_glance_tick(rng, active, next, true, now) == (rng, None::<Instant>, None::<Instant>, GlanceTick::Still),
{
}

} // verus!
