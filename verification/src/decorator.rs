//! Decorator overlays: small symbolic shapes drawn on top of the face to
//! amplify whatever emotion is showing. Only one decorator shows at a time;
//! each carries an expiry deadline.
use vstd::prelude::*;
use crate::clock::{Instant, instant_at, sat_add, lemma_instant_at_view, lemma_instant_view_ext};

verus! {

/// Decorator overlay kind.
#[derive(Debug, Clone, Copy, PartialEq, Eq, Structural, Hash)]
#[non_exhaustive]
pub enum Decorator {
    /// Pink heart cluster — affection / love overlay.
    Heart,
    /// Light-blue tear drop — distress / surprise overlay.
    Sweat,
    /// Three-dot arc — dizzy / shaken overlay.
    Dizzy,
    /// Cupped-hand / ear shape — listening overlay.
    Ear,
    /// Concentric blue rings — pairing window active.
    Pairing,
    /// Crossed anger mark — armed on the rising edge into `Emotion::Angry`.
    Angry,
    /// Blush hatching under the eyes — armed on the rising edge into
    /// `Emotion::Loved`.
    Shy,
    /// Thought marker — shown while attention is `Thinking`.
    Thinking,
}

impl Decorator {
    /// The lowercase HTTP wire name of a decorator.
    pub open spec fn spec_wire_str(self) -> Seq<char> {
        match self {
            Decorator::Heart => "heart"@,
            Decorator::Sweat => "sweat"@,
            Decorator::Dizzy => "dizzy"@,
            Decorator::Ear => "ear"@,
            Decorator::Pairing => "pairing"@,
            Decorator::Angry => "angry"@,
            Decorator::Shy => "shy"@,
            Decorator::Thinking => "thinking"@,
        }
    }

    /// The single-byte wire encoding of a decorator (append-only).
    pub open spec fn spec_wire_byte(self) -> u8 {
        match self {
            Decorator::Heart => 0,
            Decorator::Sweat => 1,
            Decorator::Dizzy => 2,
            Decorator::Ear => 3,
            Decorator::Pairing => 4,
            Decorator::Angry => 5,
            Decorator::Shy => 6,
            Decorator::Thinking => 7,
        }
    }

    /// Lowercase wire name for the HTTP `/state` snapshot.
    pub fn wire_str(self) -> (r: &'static str)
        ensures
            r@ == self.spec_wire_str(),
    {
        match self {
            Decorator::Heart => "heart",
            Decorator::Sweat => "sweat",
            Decorator::Dizzy => "dizzy",
            Decorator::Ear => "ear",
            Decorator::Pairing => "pairing",
            Decorator::Angry => "angry",
            Decorator::Shy => "shy",
            Decorator::Thinking => "thinking",
        }
    }

    /// Single-byte wire encoding. Append-only.
    pub fn wire_byte(self) -> (r: u8)
        ensures
            r == self.spec_wire_byte(),
    {
        match self {
            Decorator::Heart => 0,
            Decorator::Sweat => 1,
            Decorator::Dizzy => 2,
            Decorator::Ear => 3,
            Decorator::Pairing => 4,
            Decorator::Angry => 5,
            Decorator::Shy => 6,
            Decorator::Thinking => 7,
        }
    }

    /// The overlay variants of the catalogue, in declaration order.
    pub const ALL: &'static [Decorator; 5] = &[
        Decorator::Heart,
        Decorator::Sweat,
        Decorator::Dizzy,
        Decorator::Ear,
        Decorator::Pairing,
    ];
}

/// Wire bytes are one-to-one.
pub proof fn lemma_decorator_wire_byte_injective(a: Decorator, b: Decorator)
    ensures
        a.spec_wire_byte() == b.spec_wire_byte() ==> a == b,
{
}

/// Wire names are one-to-one, non-empty and lowercase ASCII.
pub proof fn lemma_decorator_wire_str_unique_lowercase(a: Decorator, b: Decorator)
    ensures
        a.spec_wire_str() == b.spec_wire_str() ==> a == b,
        a.spec_wire_str().len() > 0,
        forall|i: int| 0 <= i < a.spec_wire_str().len() ==> 'a' <= #[trigger] a.spec_wire_str()[i] <= 'z',
{
    reveal_strlit("heart");
    reveal_strlit("sweat");
    reveal_strlit("dizzy");
    reveal_strlit("ear");
    reveal_strlit("pairing");
    reveal_strlit("angry");
    reveal_strlit("shy");
    reveal_strlit("thinking");
    if a.spec_wire_str() == b.spec_wire_str() {
        assert(a.spec_wire_str().len() == b.spec_wire_str().len());
        assert(a.spec_wire_str()[0] == b.spec_wire_str()[0]);
    }
}

/// Active decorator overlay with its expiry deadline.
#[derive(Debug, Clone, Copy, PartialEq, Eq, Structural)]
pub struct DecoratorState {
    /// Which decorator is showing.
    pub kind: Decorator,
    /// Instant at which this decorator stops being drawn.
    pub expires_at: Instant,
}

impl DecoratorState {
    /// Construct a state that holds `kind` from `now` for `duration_ms`
    /// milliseconds.
    pub fn hold_for(kind: Decorator, now: Instant, duration_ms: u64) -> (r: Self)
        requires
            now@ + duration_ms <= u64::MAX,
        ensures
            r.kind == kind,
            r.expires_at@ == now@ + duration_ms,
    {
        Self { kind, expires_at: Instant::from_millis(now.as_millis() + duration_ms) }
    }

    /// `true` iff `now` has reached or passed the deadline.
    pub fn is_expired(&self, now: Instant) -> (r: bool)
        ensures
            r == (now@ >= self.expires_at@),
    {
        now.as_millis() >= self.expires_at.as_millis()
    }

    /// A state that holds `kind` from `now` for `duration_ms`, the deadline
    /// saturating at the end of the clock range.
    pub(crate) fn hold_saturating(kind: Decorator, now: Instant, duration_ms: u64) -> (r: Self)
        ensures
            r == held(kind, now, duration_ms),
    {
        proof {
            broadcast use lemma_instant_at_view, lemma_instant_view_ext;
        }
        let millis = if now.as_millis() <= u64::MAX - duration_ms { now.as_millis() + duration_ms } else { u64::MAX };
        let r = Self { kind, expires_at: Instant::from_millis(millis) };
        assert(r.expires_at@ == instant_at(sat_add(now@, duration_ms))@);
        r
    }
}

/// The state holding `kind` from `now` for `duration_ms` (deadline
/// saturating at `u64::MAX`).
pub open spec fn held(kind: Decorator, now: Instant, duration_ms: u64) -> DecoratorState {
    DecoratorState { kind, expires_at: instant_at(sat_add(now@, duration_ms)) }
}

} // verus!
