//! The NPC entity, composed of its integer sub-components, and the
//! per-frame timing stamp.
use vstd::prelude::*;
use crate::clock::Instant;
use crate::events::Events;
use crate::face::Face;
use crate::input::Input;
use crate::mind::Mind;
use crate::perception::Perception;
use crate::voice::Voice;

verus! {

/// Per-frame timing stamped on [`Entity`] by the director.
#[derive(Debug, Default, Clone, Copy, PartialEq, Eq, Structural)]
pub struct Tick {
    /// Wall (or simulated) time this frame.
    pub now: Instant,
    /// Milliseconds since the previous frame. `0` on the first frame.
    pub dt_ms: u32,
    /// Monotonic frame counter, `1` after the first frame.
    pub frame: u64,
}

/// The composed entity: a single NPC.
#[derive(Debug, Clone, Copy, PartialEq, Eq)]
pub struct Entity {
    /// Visual surface. Read by the renderer.
    pub face: Face,
    /// Integer sensor readings.
    pub perception: Perception,
    /// Speech I/O requests.
    pub voice: Voice,
    /// Cognitive layer.
    pub mind: Mind,
    /// Pending firmware → modifier inputs.
    pub input: Input,
    /// One-frame fire flags.
    pub events: Events,
    /// Per-frame timing.
    pub tick: Tick,
}

/// Two faces render identically: every field agrees, bubble texts compared
/// by their characters.
pub open spec fn same_frame(a: Face, b: Face) -> bool {
    &&& a.left_eye == b.left_eye
    &&& a.right_eye == b.right_eye
    &&& a.mouth == b.mouth
    &&& a.style == b.style
    &&& a.decorator == b.decorator
    &&& a.battery_overlay == b.battery_overlay
    &&& a.palette == b.palette
    &&& a.geometry == b.geometry
    &&& match (a.bubble, b.bubble) {
        (Some(x), Some(y)) => x.text@ == y.text@ && x.expires_at == y.expires_at,
        (None, None) => true,
        _ => false,
    }
}

/// Whether `a` and `b` hold the same characters.
pub fn str_eq(a: &str, b: &str) -> (r: bool)
    ensures
        r == (a@ == b@),
{
    let n = a.unicode_len();
    let m = b.unicode_len();
    if n != m {
        return false;
    }
    let mut i: usize = 0;
    while i < n
        invariant
            n == a@.len(),
            m == b@.len(),
            n == m,
            i <= n,
            forall|j: int| 0 <= j < i ==> a@[j] == b@[j],
        decreases n - i,
    {
        if a.get_char(i) != b.get_char(i) {
            return false;
        }
        i = i + 1;
    }
    assert(a@ =~= b@);
    true
}

impl Entity {
    /// The boot state: default face, no readings, boot mind, zero tick.
    pub open spec fn is_initial(self) -> bool {
        &&& self.face.is_default_face()
        &&& self.perception == (Perception { battery_percent: None, usb_power_present: None, body_touch: None, tracking: None, ambient: None })
        &&& self.voice.chirp_request is None
        &&& self.mind.is_initial()
        &&& !self.input.tap_pending
        &&& self.input.remote_pending is None
        &&& self.tick.now@ == 0
        &&& self.tick.dt_ms == 0
        &&& self.tick.frame == 0
    }

    /// Visual-state equality used by the render loop's dirty-check: `true`
    /// iff `self` and `other` would render to the same pixels. Compares only
    /// the face.
    pub fn frame_eq(&self, other: &Self) -> (r: bool)
        ensures
            r == same_frame(self.face, other.face),
    {
        let a = &self.face;
        let b = &other.face;
        let bubbles_eq = match (a.bubble, b.bubble) {
            (Some(x), Some(y)) => str_eq(x.text, y.text) && x.expires_at == y.expires_at,
            (None, None) => true,
            _ => false,
        };
        bubbles_eq && a.left_eye == b.left_eye && a.right_eye == b.right_eye && a.mouth == b.mouth
            && a.style == b.style && a.decorator == b.decorator
            && a.battery_overlay == b.battery_overlay && a.palette == b.palette && a.geometry == b.geometry
    }
}

impl Default for Entity {
    fn default() -> (r: Self)
        ensures
            r.is_initial(),
    {
        Entity {
            face: Face::default(),
            perception: Perception { battery_percent: None, usb_power_present: None, body_touch: None, tracking: None, ambient: None },
            voice: Voice { chirp_request: None },
            mind: Mind::initial(),
            input: Input { tap_pending: false, remote_pending: None },
            events: Events {},
            tick: Tick { now: Instant::from_millis(0), dt_ms: 0, frame: 0 },
        }
    }
}

} // verus!
