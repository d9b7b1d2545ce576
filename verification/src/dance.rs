//! Dance choreography schema and its structural validation.
//!
//! A [`DanceScript`] is a time-ordered sequence of [`Keyframe`]s, each
//! carrying optional values for the avatar (emotion, decorator) and LED
//! (r, g, b) channels. The motion channel (pan and tilt angles) is carried
//! beside these by the caller, as it plays no part in validation.
use vstd::prelude::*;
use crate::decorator::Decorator;
use crate::emotion::Emotion;

verus! {

/// Maximum number of keyframes in one script.
pub const MAX_KEYFRAMES: usize = 1024;
/// How long after the last keyframe the player keeps its overrides, in ms.
pub const SCRIPT_TAIL_MS: u32 = 200;
/// Minimum spacing between successive keyframes, in ms (simultaneous
/// keyframes are allowed).
pub const MIN_KEYFRAME_SPACING_MS: u32 = 0;

/// One keyframe: its offset from the script start and the channel values it
/// sets.
#[derive(Debug, Clone, Copy, Default, PartialEq, Eq, Structural)]
pub struct Keyframe {
    /// Offset from the script's start, in ms.
    pub at_ms: u32,
    /// Emotion override.
    pub emotion: Option<Emotion>,
    /// Decorator override.
    pub decorator: Option<Decorator>,
    /// LED red component.
    pub r: Option<u8>,
    /// LED green component.
    pub g: Option<u8>,
    /// LED blue component.
    pub b: Option<u8>,
}

impl Keyframe {
    /// The `(r, g, b)` triple when all three components are set.
    pub fn rgb(&self) -> (r: Option<(u8, u8, u8)>)
        ensures
            r == (match (self.r, self.g, self.b) {
                (Some(r), Some(g), Some(b)) => Some((r, g, b)),
                _ => None,
            }),
    {
        match (self.r, self.g, self.b) {
            (Some(r), Some(g), Some(b)) => Some((r, g, b)),
            _ => None,
        }
    }
}

/// A complete dance script.
#[derive(Debug, Clone, Default)]
pub struct DanceScript {
    /// Keyframes in time order.
    pub keyframes: Vec<Keyframe>,
}

/// Why a script is rejected.
#[derive(Debug, Clone, Copy, PartialEq, Eq, Structural)]
#[non_exhaustive]
pub enum DanceError {
    /// No keyframes.
    Empty,
    /// More than [`MAX_KEYFRAMES`] keyframes.
    TooManyKeyframes,
    /// A keyframe comes before its predecessor.
    OutOfOrder,
    /// A keyframe sets some but not all of `r`, `g`, `b`.
    PartialRgb,
}

/// Keyframe `i` comes earlier than its predecessor allows.
pub open spec fn out_of_order(s: Seq<Keyframe>, i: int) -> bool {
    i > 0 && s[i].at_ms < s[i - 1].at_ms + MIN_KEYFRAME_SPACING_MS
}

/// The keyframe sets some, but not all, of its colour components.
pub open spec fn partial_rgb(k: Keyframe) -> bool {
    (k.r is Some || k.g is Some || k.b is Some) && !(k.r is Some && k.g is Some && k.b is Some)
}

/// The first fault at or after index `i`, scanning in order: an ordering
/// fault takes precedence over a colour fault on the same keyframe.
pub open spec fn first_fault(s: Seq<Keyframe>, i: int) -> Option<DanceError>
    decreases s.len() - i,
{
    if i < 0 || i >= s.len() {
        None
    } else if out_of_order(s, i) {
        Some(DanceError::OutOfOrder)
    } else if partial_rgb(s[i]) {
        Some(DanceError::PartialRgb)
    } else {
        first_fault(s, i + 1)
    }
}

/// The verdict on a script: empty, too long, or its first keyframe fault.
pub open spec fn spec_validate(s: Seq<Keyframe>) -> Result<(), DanceError> {
    if s.len() == 0 {
        Err(DanceError::Empty)
    } else if s.len() > MAX_KEYFRAMES {
        Err(DanceError::TooManyKeyframes)
    } else {
        match first_fault(s, 0) {
            None => Ok(()),
            Some(e) => Err(e),
        }
    }
}

/// No fault at or after `i` means every keyframe from `i` on is in order and
/// sets its colour fully or not at all.
pub proof fn lemma_no_fault_means_well_formed(s: Seq<Keyframe>, i: int)
    requires
        0 <= i,
        first_fault(s, i) is None,
    ensures
        forall|j: int| i <= j < s.len() ==> !out_of_order(s, j) && !partial_rgb(#[trigger] s[j]),
    decreases s.len() - i,
{
    if i < s.len() {
        lemma_no_fault_means_well_formed(s, i + 1);
    }
}

/// A keyframe sets all of its colour components or none.
pub open spec fn colour_complete(k: Keyframe) -> bool {
    (k.r is Some && k.g is Some && k.b is Some) || (k.r is None && k.g is None && k.b is None)
}

/// From index `i` on, the first keyframe that starts earlier than its
/// predecessor, with every keyframe before it from `i` on setting its colour
/// fully or not at all, makes the scan report an ordering fault.
proof fn lemma_decrease_is_order_fault(s: Seq<Keyframe>, i: int, d: int)
    requires
        0 <= i <= d < s.len(),
        0 < d,
        s[d].at_ms < s[d - 1].at_ms,
        forall|j: int| i <= j < d ==> colour_complete(#[trigger] s[j]),
    ensures
        first_fault(s, i) == Some(DanceError::OutOfOrder),
    decreases d - i,
{
    if i < d {
        if !out_of_order(s, i) {
            assert(colour_complete(s[i]));
            lemma_decrease_is_order_fault(s, i + 1, d);
        }
    }
}

/// An accepted script is in time order with every colour complete, and a
/// script of acceptable length in which a keyframe starts before its
/// predecessor, with no incomplete colour before it, is refused as out of
/// order.
pub proof fn lemma_validate_order(s: Seq<Keyframe>)
    ensures
        spec_validate(s) is Ok ==> {
            &&& 0 < s.len() <= MAX_KEYFRAMES
            &&& forall|i: int| 0 < i < s.len() ==> (#[trigger] s[i]).at_ms >= s[i - 1].at_ms
            &&& forall|i: int| 0 <= i < s.len() ==> colour_complete(#[trigger] s[i])
        },
        forall|d: int| 0 < d < s.len() && s.len() <= MAX_KEYFRAMES && (#[trigger] s[d]).at_ms < s[d - 1].at_ms
            && (forall|j: int| 0 <= j < d ==> colour_complete(#[trigger] s[j]))
            ==> spec_validate(s) == Err::<(), DanceError>(DanceError::OutOfOrder),
{
    if spec_validate(s) is Ok {
        lemma_no_fault_means_well_formed(s, 0);
        assert forall|i: int| 0 < i < s.len() implies (#[trigger] s[i]).at_ms >= s[i - 1].at_ms by {
            assert(!out_of_order(s, i));
        }
        assert forall|i: int| 0 <= i < s.len() implies colour_complete(#[trigger] s[i]) by {
            assert(!partial_rgb(s[i]));
        }
    }
    assert forall|d: int| 0 < d < s.len() && s.len() <= MAX_KEYFRAMES && (#[trigger] s[d]).at_ms < s[d - 1].at_ms
        && (forall|j: int| 0 <= j < d ==> colour_complete(#[trigger] s[j]))
        implies spec_validate(s) == Err::<(), DanceError>(DanceError::OutOfOrder) by {
        lemma_decrease_is_order_fault(s, 0, d);
    }
}

/// Validate a script: non-empty, at most [`MAX_KEYFRAMES`] keyframes, in
/// time order, and every colour triple complete or absent.
pub fn validate(script: &DanceScript) -> (r: Result<(), DanceError>)
    ensures
        r == spec_validate(script.keyframes@),
{
    let n: usize = script.keyframes.len();
    if n == 0 {
        return Err(DanceError::Empty);
    }
    if n > MAX_KEYFRAMES {
        return Err(DanceError::TooManyKeyframes);
    }
    let ghost s = script.keyframes@;
    let mut prev_at: Option<u32> = None;
    let mut i: usize = 0;
    while i < n
        invariant
            n == s.len(),
            s == script.keyframes@,
            0 < n <= MAX_KEYFRAMES,
            i <= n,
            first_fault(s, 0) == first_fault(s, i as int),
            i == 0 ==> prev_at is None,
            i > 0 ==> prev_at == Some(s[i - 1].at_ms),
        decreases n - i,
    {
        let kf = script.keyframes[i];
        if let Some(prev) = prev_at {
            if kf.at_ms < prev + MIN_KEYFRAME_SPACING_MS {
                return Err(DanceError::OutOfOrder);
            }
        }
        prev_at = Some(kf.at_ms);
        let any_rgb: bool = kf.r.is_some() || kf.g.is_some() || kf.b.is_some();
        let all_rgb: bool = kf.r.is_some() && kf.g.is_some() && kf.b.is_some();
        if any_rgb && !all_rgb {
            return Err(DanceError::PartialRgb);
        }
        i = i + 1;
    }
    Ok(())
}

/// What a script says for the avatar and LED channels at one instant: the
/// most recent value each channel was given.
#[derive(Debug, Default, Clone, Copy, PartialEq, Eq)]
pub struct ChannelSample {
    /// Emotion override.
    pub emotion: Option<Emotion>,
    /// Decorator override.
    pub decorator: Option<Decorator>,
    /// LED colour override.
    pub led: Option<[u8; 3]>,
}

/// The number of leading keyframes due at `elapsed_ms`: the scan stops at
/// the first keyframe from position `i` on that lies in the future.
pub open spec fn due_count(s: Seq<Keyframe>, elapsed_ms: u32, i: int) -> int
    decreases s.len() - i,
{
    if i < 0 || i >= s.len() {
        s.len() as int
    } else if s[i].at_ms > elapsed_ms {
        i
    } else {
        due_count(s, elapsed_ms, i + 1)
    }
}

/// The last emotion set among the first `n` keyframes.
pub open spec fn last_emotion(s: Seq<Keyframe>, n: int) -> Option<Emotion>
    decreases n,
{
    if n <= 0 {
        None
    } else if s[n - 1].emotion is Some {
        s[n - 1].emotion
    } else {
        last_emotion(s, n - 1)
    }
}

/// The last decorator set among the first `n` keyframes.
pub open spec fn last_decorator(s: Seq<Keyframe>, n: int) -> Option<Decorator>
    decreases n,
{
    if n <= 0 {
        None
    } else if s[n - 1].decorator is Some {
        s[n - 1].decorator
    } else {
        last_decorator(s, n - 1)
    }
}

/// The last full colour triple set among the first `n` keyframes.
pub open spec fn last_led(s: Seq<Keyframe>, n: int) -> Option<(u8, u8, u8)>
    decreases n,
{
    if n <= 0 {
        None
    } else if s[n - 1].r is Some && s[n - 1].g is Some && s[n - 1].b is Some {
        Some((s[n - 1].r->0, s[n - 1].g->0, s[n - 1].b->0))
    } else {
        last_led(s, n - 1)
    }
}

/// Sample the avatar and LED channels of `keyframes` at `elapsed_ms` since
/// the script started: each channel holds the value of the most recent due
/// keyframe that sets it.
pub fn sample_channels(keyframes: &[Keyframe], elapsed_ms: u32) -> (r: ChannelSample)
    ensures
        ({
            let n = due_count(keyframes@, elapsed_ms, 0);
            &&& r.emotion == last_emotion(keyframes@, n)
            &&& r.decorator == last_decorator(keyframes@, n)
            &&& (match last_led(keyframes@, n) {
                Some((red, green, blue)) => r.led matches Some(c) && c@ == seq![red, green, blue],
                None => r.led is None,
            })
        }),
{
    let ghost s = keyframes@;
    let mut emotion: Option<Emotion> = None;
    let mut decorator: Option<Decorator> = None;
    let mut led: Option<[u8; 3]> = None;
    let mut i: usize = 0;
    while i < keyframes.len()
        invariant_except_break
            s == keyframes@,
            i <= s.len(),
            due_count(s, elapsed_ms, 0) == due_count(s, elapsed_ms, i as int),
            emotion == last_emotion(s, i as int),
            decorator == last_decorator(s, i as int),
            match last_led(s, i as int) {
                Some((red, green, blue)) => led matches Some(c) && c@ == seq![red, green, blue],
                None => led is None,
            },
        ensures
            due_count(s, elapsed_ms, 0) == i,
            emotion == last_emotion(s, i as int),
            decorator == last_decorator(s, i as int),
            match last_led(s, i as int) {
                Some((red, green, blue)) => led matches Some(c) && c@ == seq![red, green, blue],
                None => led is None,
            },
        decreases s.len() - i,
    {
        let kf = keyframes[i];
        if kf.at_ms > elapsed_ms {
            break;
        }
        if let Some(e) = kf.emotion {
            emotion = Some(e);
        }
        if let Some(d) = kf.decorator {
            decorator = Some(d);
        }
        if let Some(triple) = kf.rgb() {
            let c: [u8; 3] = [triple.0, triple.1, triple.2];
            proof {
                assert(c@ =~= seq![triple.0, triple.1, triple.2]);
            }
            led = Some(c);
        }
        i = i + 1;
    }
    ChannelSample { emotion, decorator, led }
}

/// When a script ends, in ms after its start: its last keyframe plus
/// [`SCRIPT_TAIL_MS`] (saturating), or the tail alone for an empty script.
pub open spec fn spec_script_end(s: Seq<Keyframe>) -> u32 {
    let last: int = if s.len() == 0 { 0 } else { s.last().at_ms as int };
    (if last + SCRIPT_TAIL_MS <= u32::MAX { last + SCRIPT_TAIL_MS } else { u32::MAX as int }) as u32
}

/// Whether a script started `elapsed_ms` ago has run past its end.
pub fn script_finished(keyframes: &[Keyframe], elapsed_ms: u32) -> (r: bool)
    ensures
        r == (elapsed_ms > spec_script_end(keyframes@)),
{
    let last_at: u32 = if keyframes.len() == 0 { 0 } else { keyframes[keyframes.len() - 1].at_ms };
    let end: u32 = if last_at <= u32::MAX - SCRIPT_TAIL_MS { last_at + SCRIPT_TAIL_MS } else { u32::MAX };
    elapsed_ms > end
}

} // verus!
