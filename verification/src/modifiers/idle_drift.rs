//! Idle eye drift: every few seconds both eyes shift by a small random
//! amount, the previous shift undone first so the eyes never walk off.
use vstd::prelude::*;
use crate::clock::{after, Instant};
use crate::director::{Field, ModifierMeta, Phase};
use crate::entity::Entity;
use crate::face::{Eye, Face, Point};
use crate::modifier::Modifier;
use crate::modifiers::idle_micro_expression::after_offset_draw;
use crate::rng::{offset_from, offset_from_raw, xorshift32, xorshift32_next};

verus! {

/// Default generator seed.
pub const DEFAULT_SEED: u32 = 0x1234_5678;
/// Default interval between drifts, in ms.
pub const DEFAULT_INTERVAL_MS: u64 = 4_000;
/// Maximum horizontal drift in either direction, in pixels.
pub const DEFAULT_MAX_X: i32 = 6;
/// Maximum vertical drift in either direction, in pixels.
pub const DEFAULT_MAX_Y: i32 = 4;

/// Occasionally offsets both eyes' centres by a small amount.
#[derive(Debug, Clone, Copy)]
pub struct IdleDrift {
    interval_ms: u64,
    max_x: i32,
    max_y: i32,
    rng_state: u32,
    next_drift_at: Option<Instant>,
    last_offset: (i32, i32),
}

/// `p` moved by `(dx, dy)`, wrapping at the `i32` range.
pub open spec fn moved(p: Point, dx: int, dy: int) -> Point {
    Point { x: (p.x + dx) as i32, y: (p.y + dy) as i32 }
}

/// Both eye centres moved by `(dx, dy)`.
pub open spec fn eyes_moved(e: Entity, dx: int, dy: int) -> Entity {
    Entity {
        face: Face {
            left_eye: Eye { center: moved(e.face.left_eye.center, dx, dy), ..e.face.left_eye },
            right_eye: Eye { center: moved(e.face.right_eye.center, dx, dy), ..e.face.right_eye },
            ..e.face
        },
        ..e
    }
}

pub(crate) fn move_point(p: Point, dx: i64, dy: i64) -> (r: Point)
    ensures
        r == moved(p, dx as int, dy as int),
{
    Point { x: (p.x as i128 + dx as i128) as i32, y: (p.y as i128 + dy as i128) as i32 }
}

impl IdleDrift {
    /// Interval between drifts, in ms.
    pub closed spec fn interval(&self) -> u64 {
        self.interval_ms
    }

    /// Horizontal drift bound.
    pub closed spec fn bound_x(&self) -> i32 {
        self.max_x
    }

    /// Vertical drift bound.
    pub closed spec fn bound_y(&self) -> i32 {
        self.max_y
    }

    /// Generator state.
    pub closed spec fn state(&self) -> u32 {
        self.rng_state
    }

    /// When the next drift is due; `None` before the first tick.
    pub closed spec fn next_drift(&self) -> Option<Instant> {
        self.next_drift_at
    }

    /// The offset applied by the previous drift.
    pub closed spec fn applied(&self) -> (i32, i32) {
        self.last_offset
    }

    /// Default timing and the default seed.
    pub fn new() -> (r: Self)
        ensures
            r.interval() == DEFAULT_INTERVAL_MS,
            r.bound_x() == DEFAULT_MAX_X,
            r.bound_y() == DEFAULT_MAX_Y,
            r.state() == DEFAULT_SEED,
            r.next_drift() is None,
            r.applied() == (0i32, 0i32),
    {
        Self::with_seed(DEFAULT_SEED)
    }

    /// Default timing with a custom, non-zero seed.
    pub fn with_seed(seed: u32) -> (r: Self)
        requires
            seed != 0,
        ensures
            r.interval() == DEFAULT_INTERVAL_MS,
            r.bound_x() == DEFAULT_MAX_X,
            r.bound_y() == DEFAULT_MAX_Y,
            r.state() == seed,
            r.next_drift() is None,
            r.applied() == (0i32, 0i32),
    {
        Self {
            interval_ms: DEFAULT_INTERVAL_MS,
            max_x: DEFAULT_MAX_X,
            max_y: DEFAULT_MAX_Y,
            rng_state: seed,
            next_drift_at: None,
            last_offset: (0, 0),
        }
    }

    /// Advance the generator and return its next output.
    pub fn next_u32(&mut self) -> (r: u32)
        ensures
            r == xorshift32(old(self).state()),
            final(self).state() == r,
            final(self).interval() == old(self).interval(),
            final(self).bound_x() == old(self).bound_x(),
            final(self).bound_y() == old(self).bound_y(),
            final(self).next_drift() == old(self).next_drift(),
            final(self).applied() == old(self).applied(),
    {
        let x: u32 = xorshift32_next(self.rng_state);
        self.rng_state = x;
        x
    }

    /// A signed offset in `[-max, max]`; 0, without drawing, for a
    /// non-positive `max`.
    pub fn rand_offset(&mut self, max: i32) -> (r: i32)
        ensures
            r == offset_from(xorshift32(old(self).state()), max),
            final(self).state() == after_offset_draw(old(self).state(), max),
            final(self).interval() == old(self).interval(),
            final(self).bound_x() == old(self).bound_x(),
            final(self).bound_y() == old(self).bound_y(),
            final(self).next_drift() == old(self).next_drift(),
            final(self).applied() == old(self).applied(),
    {
        if max <= 0 {
            return 0;
        }
        let raw: u32 = self.next_u32();
        offset_from_raw(raw, max)
    }
}

impl Default for IdleDrift {
    fn default() -> (r: Self)
        ensures
            r.interval() == DEFAULT_INTERVAL_MS,
            r.bound_x() == DEFAULT_MAX_X,
            r.bound_y() == DEFAULT_MAX_Y,
            r.state() == DEFAULT_SEED,
            r.next_drift() is None,
            r.applied() == (0i32, 0i32),
    {
        Self::new()
    }
}

impl IdleDrift {
    /// One update from entity `pre_entity` leaves the entity as
    /// `post_entity` and the modifier as `post_self`.
    pub open spec fn stepped(&self, post_self: Self, pre_entity: Entity, post_entity: Entity) -> bool {
        &&& (post_self.interval() == self.interval())
        &&& (post_self.bound_x() == self.bound_x())
        &&& (post_self.bound_y() == self.bound_y())
        &&& (({
                let s = *self;
                let e = pre_entity;
                let now = e.tick.now;
                match s.next_drift() {
                    None => {
                        &&& post_self.state() == s.state()
                        &&& post_self.next_drift() == Some(after(now, s.interval()))
                        &&& post_self.applied() == s.applied()
                        &&& post_entity == e
                    },
                    Some(t) => if now@ < t@ {
                        &&& post_self.state() == s.state()
                        &&& post_self.next_drift() == s.next_drift()
                        &&& post_self.applied() == s.applied()
                        &&& post_entity == e
                    } else {
                        let nx = offset_from(xorshift32(s.state()), s.bound_x());
                        let state1 = after_offset_draw(s.state(), s.bound_x());
                        let ny = offset_from(xorshift32(state1), s.bound_y());
                        let (dx, dy) = s.applied();
                        &&& post_self.state() == after_offset_draw(state1, s.bound_y())
                        &&& post_self.next_drift() == Some(after(now, s.interval()))
                        &&& post_self.applied() == (nx, ny)
                        &&& post_entity == eyes_moved(e, nx - dx, ny - dy)
                    },
                }
            }))
    }
}

impl Modifier for IdleDrift {
    open spec fn obeys_modifier_spec(&self) -> bool {
        true
    }

    open spec fn declared_phase(&self) -> Phase {
        Phase::Expression
    }

    open spec fn declared_priority(&self) -> i8 {
        0i8
    }

    open spec fn declared_writes(&self) -> Seq<Field> {
        seq![Field::LeftEyeCenter, Field::RightEyeCenter]
    }

    open spec fn update_outcome(&self, before: Entity, after: Entity) -> bool {
        exists|n: Self| #[trigger] self.stepped(n, before, after)
    }

    fn meta(&self) -> (r: ModifierMeta)
        ensures
            r.name@ == "IdleDrift"@,
            r.description@ == "Periodically jitters both eye centres a few pixels in random directions \
                          so a long-idle stare doesn't read as uncanny."@,
            r.phase == Phase::Expression,
            r.priority == 0,
            r.reads@ == Seq::<Field>::empty(),
            r.writes@ == seq![Field::LeftEyeCenter, Field::RightEyeCenter],
    {
        ModifierMeta {
            name: "IdleDrift",
            description: "Periodically jitters both eye centres a few pixels in random directions \
                          so a long-idle stare doesn't read as uncanny.",
            phase: Phase::Expression,
            priority: 0,
            reads: Vec::new(),
            writes: vec![Field::LeftEyeCenter, Field::RightEyeCenter],
        }
    }

    fn update(&mut self, entity: &mut Entity)
        ensures
            final(self).interval() == old(self).interval(),
            final(self).bound_x() == old(self).bound_x(),
            final(self).bound_y() == old(self).bound_y(),
            ({
                let s = *old(self);
                let e = *old(entity);
                let now = e.tick.now;
                match s.next_drift() {
                    None => {
                        &&& final(self).state() == s.state()
                        &&& final(self).next_drift() == Some(after(now, s.interval()))
                        &&& final(self).applied() == s.applied()
                        &&& *final(entity) == e
                    },
                    Some(t) => if now@ < t@ {
                        &&& final(self).state() == s.state()
                        &&& final(self).next_drift() == s.next_drift()
                        &&& final(self).applied() == s.applied()
                        &&& *final(entity) == e
                    } else {
                        let nx = offset_from(xorshift32(s.state()), s.bound_x());
                        let state1 = after_offset_draw(s.state(), s.bound_x());
                        let ny = offset_from(xorshift32(state1), s.bound_y());
                        let (dx, dy) = s.applied();
                        &&& final(self).state() == after_offset_draw(state1, s.bound_y())
                        &&& final(self).next_drift() == Some(after(now, s.interval()))
                        &&& final(self).applied() == (nx, ny)
                        &&& *final(entity) == eyes_moved(e, nx - dx, ny - dy)
                    },
                }
            }),
            old(self).stepped(*final(self), *old(entity), *final(entity)),
    {
        let now = entity.tick.now;
        match self.next_drift_at {
            None => {
                self.next_drift_at = Some(now.plus(self.interval_ms));
                assert(old(self).stepped(*self, *old(entity), *entity));
                return;
            },
            Some(t) => {
                if now.as_millis() < t.as_millis() {
                    assert(old(self).stepped(*self, *old(entity), *entity));
                    return;
                }
            },
        }
        let (dx, dy) = self.last_offset;
        let nx: i32 = self.rand_offset(self.max_x);
        let ny: i32 = self.rand_offset(self.max_y);
        let ddx: i64 = nx as i64 - dx as i64;
        let ddy: i64 = ny as i64 - dy as i64;
        entity.face.left_eye.center = move_point(entity.face.left_eye.center, ddx, ddy);
        entity.face.right_eye.center = move_point(entity.face.right_eye.center, ddx, ddy);
        self.last_offset = (nx, ny);
        self.next_drift_at = Some(now.plus(self.interval_ms));
        assert(old(self).stepped(*self, *old(entity), *entity));
    }
}

/// Drifts never accumulate: undoing one offset and applying the next moves
/// the eyes by the difference, so two moves add up to one move by their sum
/// (for positions that stay inside the `i32` range).
pub proof fn lemma_moves_compose(e: Entity, dx1: int, dy1: int, dx2: int, dy2: int)
    requires
        i32::MIN <= e.face.left_eye.center.x + dx1 <= i32::MAX,
        i32::MIN <= e.face.left_eye.center.y + dy1 <= i32::MAX,
        i32::MIN <= e.face.right_eye.center.x + dx1 <= i32::MAX,
        i32::MIN <= e.face.right_eye.center.y + dy1 <= i32::MAX,
    ensures
        eyes_moved(eyes_moved(e, dx1, dy1), dx2, dy2) == eyes_moved(e, dx1 + dx2, dy1 + dy2),
{
}

} // verus!
