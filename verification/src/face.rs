//! Visual surface of the entity: the rendered face.
//!
//! [`Face`] groups the eye and mouth geometry plus the emotion-driven
//! [`Style`] that shapes how those primitives are drawn. All coordinates
//! are in an abstract 320×240 framebuffer space.
use vstd::prelude::*;
use crate::bubble::BubbleState;
use crate::decorator::DecoratorState;
use crate::palette::Palette;
use crate::entity::str_eq;

verus! {

/// A 2D integer point in framebuffer space.
#[derive(Debug, Clone, Copy, PartialEq, Eq, Structural, Default)]
pub struct Point {
    /// Horizontal coordinate in pixels.
    pub x: i32,
    /// Vertical coordinate in pixels.
    pub y: i32,
}

impl Point {
    /// Construct a `Point` from `(x, y)` pixel coordinates.
    pub fn new(x: i32, y: i32) -> (r: Self)
        ensures
            r.x == x,
            r.y == y,
    {
        Self { x, y }
    }
}

/// Whether an eye is currently open or closed.
#[derive(Debug, Clone, Copy, PartialEq, Eq, Structural, Default)]
#[non_exhaustive]
pub enum EyePhase {
    /// The eye is open (use `weight` to interpolate open amount).
    #[default]
    Open,
    /// The eye is closed (blink).
    Closed,
}

/// A single eye.
#[derive(Debug, Clone, Copy, PartialEq, Eq, Structural)]
pub struct Eye {
    /// Center of the eye in framebuffer space.
    pub center: Point,
    /// Horizontal half-axis of the eye oval in pixels.
    pub radius_x: u16,
    /// Vertical half-axis of the eye oval in pixels.
    pub radius_y: u16,
    /// Current open / closed phase.
    pub phase: EyePhase,
    /// Per-frame vertical scale factor, 0..=100.
    pub weight: u8,
    /// Upper bound on `weight` when the eye is open, 0..=100.
    pub open_weight: u8,
}

/// `2 * v`, saturating at `u16::MAX`.
pub open spec fn double_sat(v: u16) -> u16 {
    if 2 * v <= u16::MAX { (2 * v) as u16 } else { u16::MAX }
}

/// Height of an oval with vertical half-axis `radius_y` drawn at `weight`
/// percent: the full span `2 * radius_y` scaled by `weight / 100`, never more
/// than the full span.
pub open spec fn spec_scaled_height(radius_y: u16, weight: u8) -> u16 {
    let full = double_sat(radius_y) as int;
    let scaled = full * weight / 100;
    (if scaled <= full { scaled } else { full }) as u16
}

/// `2 * v`, saturating at `u16::MAX`.
fn double_u16(v: u16) -> (r: u16)
    ensures
        r == double_sat(v),
{
    if v <= 32767 { v * 2 } else { u16::MAX }
}

impl Eye {
    /// Width of the eye in pixels.
    pub fn width(&self) -> (r: u16)
        ensures
            r == double_sat(self.radius_x),
    {
        double_u16(self.radius_x)
    }

    /// Height of the eye in pixels at the current weight.
    pub fn height(&self) -> (r: u16)
        ensures
            r == spec_scaled_height(self.radius_y, self.weight),
            r <= double_sat(self.radius_y),
    {
        let full = double_u16(self.radius_y);
        assert((full as u32) * (self.weight as u32) <= 65535 * 255) by (nonlinear_arith)
            requires full <= 65535, self.weight <= 255;
        let scaled = (full as u32) * (self.weight as u32) / 100;
        let clamped = if scaled < full as u32 { scaled as u16 } else { full };
        clamped
    }
}

/// The mouth geometry. The audio-driven open amount is carried by the
/// renderer, not by this integer model.
#[derive(Debug, Clone, Copy, PartialEq, Eq, Structural)]
pub struct Mouth {
    /// Center of the mouth in framebuffer space.
    pub center: Point,
    /// Horizontal half-axis of the mouth in pixels.
    pub radius_x: u16,
    /// Vertical half-axis of the mouth in pixels.
    pub radius_y: u16,
    /// Open-amount scale, 0..=100. 0 is a flat line; 100 is fully open.
    pub weight: u8,
}

/// Neutral value for a `u8` scale field where 128 = default speed/size.
pub const SCALE_DEFAULT: u8 = 128;

/// Emotion-driven appearance modulators.
#[derive(Debug, Clone, Copy, PartialEq, Eq, Structural)]
pub struct Style {
    /// Eye curvature, -100..=100. Positive = upward arc.
    pub eye_curve: i8,
    /// Mouth curvature, -100..=100. Positive = smile arc.
    pub mouth_curve: i8,
    /// Cheek blush intensity, 0..=255.
    pub cheek_blush: u8,
    /// Eye-size scale; [`SCALE_DEFAULT`] = baseline radii.
    pub eye_scale: u8,
    /// Blink-cadence scale; [`SCALE_DEFAULT`] = baseline. 0 suppresses blinks.
    pub blink_rate_scale: u8,
    /// Breath-amplitude scale; [`SCALE_DEFAULT`] = baseline.
    pub breath_depth_scale: u8,
}

impl Style {
    /// The neutral style: no curves, no blush, all scales at default.
    pub open spec fn spec_default() -> Style {
        Style {
            eye_curve: 0,
            mouth_curve: 0,
            cheek_blush: 0,
            eye_scale: SCALE_DEFAULT,
            blink_rate_scale: SCALE_DEFAULT,
            breath_depth_scale: SCALE_DEFAULT,
        }
    }
}

impl Default for Style {
    fn default() -> (r: Self)
        ensures
            r == Style::spec_default(),
    {
        Self {
            eye_curve: 0,
            mouth_curve: 0,
            cheek_blush: 0,
            eye_scale: SCALE_DEFAULT,
            blink_rate_scale: SCALE_DEFAULT,
            breath_depth_scale: SCALE_DEFAULT,
        }
    }
}

/// Eye geometry baseline — the static layout for a preset.
#[derive(Debug, Clone, Copy, PartialEq, Eq, Structural)]
pub struct EyeBaseline {
    /// Center of the eye in framebuffer space.
    pub center: Point,
    /// Horizontal half-axis in pixels.
    pub radius_x: u16,
    /// Vertical half-axis in pixels.
    pub radius_y: u16,
}

/// Mouth geometry baseline.
#[derive(Debug, Clone, Copy, PartialEq, Eq, Structural)]
pub struct MouthBaseline {
    /// Center of the mouth in framebuffer space.
    pub center: Point,
    /// Horizontal half-axis in pixels.
    pub radius_x: u16,
    /// Vertical half-axis in pixels.
    pub radius_y: u16,
}

/// Named face-geometry preset.
#[derive(Debug, Default, Clone, Copy, PartialEq, Eq, Structural, Hash)]
#[non_exhaustive]
pub enum FaceGeometry {
    /// Round eyes at framebuffer-quarter positions, small mouth.
    #[default]
    Default,
    /// Kawaii silhouette: enlarged eyes, smaller mouth, lower-set.
    Chibi,
    /// Cartoon silhouette: far-set eyes, wider mouth.
    Wide,
    /// Droopy silhouette: lower-set eyes, narrower vertical axis.
    Sleepy,
}

/// An eye baseline, in specifications.
pub open spec fn eye_base(x: i32, y: i32, rx: u16, ry: u16) -> EyeBaseline {
    EyeBaseline { center: Point { x, y }, radius_x: rx, radius_y: ry }
}

/// A mouth baseline, in specifications.
pub open spec fn mouth_base(x: i32, y: i32, rx: u16, ry: u16) -> MouthBaseline {
    MouthBaseline { center: Point { x, y }, radius_x: rx, radius_y: ry }
}

impl FaceGeometry {
    /// The lowercase wire name of a preset.
    pub open spec fn spec_wire_str(self) -> Seq<char> {
        match self {
            FaceGeometry::Default => "default"@,
            FaceGeometry::Chibi => "chibi"@,
            FaceGeometry::Wide => "wide"@,
            FaceGeometry::Sleepy => "sleepy"@,
        }
    }

    /// The wire byte of a preset (append-only).
    pub open spec fn spec_wire_byte(self) -> u8 {
        match self {
            FaceGeometry::Default => 0,
            FaceGeometry::Chibi => 1,
            FaceGeometry::Wide => 2,
            FaceGeometry::Sleepy => 3,
        }
    }

    /// The preset whose wire name is `s`, if any.
    pub open spec fn spec_from_wire_str(s: Seq<char>) -> Option<FaceGeometry> {
        if s == "default"@ {
            Some(FaceGeometry::Default)
        } else if s == "chibi"@ {
            Some(FaceGeometry::Chibi)
        } else if s == "wide"@ {
            Some(FaceGeometry::Wide)
        } else if s == "sleepy"@ {
            Some(FaceGeometry::Sleepy)
        } else {
            None
        }
    }

    /// The (left eye, right eye, mouth) baseline geometry of a preset.
    pub open spec fn spec_baseline(self) -> (EyeBaseline, EyeBaseline, MouthBaseline) {
        match self {
            FaceGeometry::Default => (
                eye_base(100, 110, 25, 25),
                eye_base(220, 110, 25, 25),
                mouth_base(160, 180, 32, 10),
            ),
            FaceGeometry::Chibi => (
                eye_base(105, 115, 32, 32),
                eye_base(215, 115, 32, 32),
                mouth_base(160, 195, 18, 6),
            ),
            FaceGeometry::Wide => (
                eye_base(85, 105, 22, 22),
                eye_base(235, 105, 22, 22),
                mouth_base(160, 180, 44, 12),
            ),
            FaceGeometry::Sleepy => (
                eye_base(100, 125, 22, 14),
                eye_base(220, 125, 22, 14),
                mouth_base(160, 188, 24, 6),
            ),
        }
    }

    /// Lowercase wire name for the HTTP body and the persisted config.
    pub fn wire_str(self) -> (r: &'static str)
        ensures
            r@ == self.spec_wire_str(),
    {
        match self {
            FaceGeometry::Default => "default",
            FaceGeometry::Chibi => "chibi",
            FaceGeometry::Wide => "wide",
            FaceGeometry::Sleepy => "sleepy",
        }
    }

    /// Single-byte wire encoding. Append-only.
    pub fn wire_byte(self) -> (r: u8)
        ensures
            r == self.spec_wire_byte(),
    {
        match self {
            FaceGeometry::Default => 0,
            FaceGeometry::Chibi => 1,
            FaceGeometry::Wide => 2,
            FaceGeometry::Sleepy => 3,
        }
    }

    /// Parse a lowercase wire string back into a preset; `None` for any
    /// other string.
    pub fn from_wire_str(s: &str) -> (r: Option<Self>)
        ensures
            r == FaceGeometry::spec_from_wire_str(s@),
    {
        if str_eq(s, "default") {
            Some(FaceGeometry::Default)
        } else if str_eq(s, "chibi") {
            Some(FaceGeometry::Chibi)
        } else if str_eq(s, "wide") {
            Some(FaceGeometry::Wide)
        } else if str_eq(s, "sleepy") {
            Some(FaceGeometry::Sleepy)
        } else {
            None
        }
    }

    /// Every variant in declaration order.
    pub const ALL: &'static [FaceGeometry; 4] = &[
        FaceGeometry::Default,
        FaceGeometry::Chibi,
        FaceGeometry::Wide,
        FaceGeometry::Sleepy,
    ];

    /// Resolve to the (left eye, right eye, mouth) baseline geometry.
    pub fn baseline(self) -> (r: (EyeBaseline, EyeBaseline, MouthBaseline))
        ensures
            r == self.spec_baseline(),
    {
        match self {
            FaceGeometry::Default => (
                EyeBaseline { center: Point::new(100, 110), radius_x: 25, radius_y: 25 },
                EyeBaseline { center: Point::new(220, 110), radius_x: 25, radius_y: 25 },
                MouthBaseline { center: Point::new(160, 180), radius_x: 32, radius_y: 10 },
            ),
            FaceGeometry::Chibi => (
                EyeBaseline { center: Point::new(105, 115), radius_x: 32, radius_y: 32 },
                EyeBaseline { center: Point::new(215, 115), radius_x: 32, radius_y: 32 },
                MouthBaseline { center: Point::new(160, 195), radius_x: 18, radius_y: 6 },
            ),
            FaceGeometry::Wide => (
                EyeBaseline { center: Point::new(85, 105), radius_x: 22, radius_y: 22 },
                EyeBaseline { center: Point::new(235, 105), radius_x: 22, radius_y: 22 },
                MouthBaseline { center: Point::new(160, 180), radius_x: 44, radius_y: 12 },
            ),
            FaceGeometry::Sleepy => (
                EyeBaseline { center: Point::new(100, 125), radius_x: 22, radius_y: 14 },
                EyeBaseline { center: Point::new(220, 125), radius_x: 22, radius_y: 14 },
                MouthBaseline { center: Point::new(160, 188), radius_x: 24, radius_y: 6 },
            ),
        }
    }
}

/// Parsing a preset's wire name gives the preset back.
pub proof fn lemma_face_geometry_wire_round_trip(g: FaceGeometry)
    ensures
        FaceGeometry::spec_from_wire_str(g.spec_wire_str()) == Some(g),
{
    reveal_strlit("default");
    reveal_strlit("chibi");
    reveal_strlit("wide");
    reveal_strlit("sleepy");
    let s = g.spec_wire_str();
    assert(s.len() != "default"@.len() ==> s != "default"@);
    assert(s.len() != "chibi"@.len() ==> s != "chibi"@);
    assert(s.len() != "wide"@.len() ==> s != "wide"@);
}

/// Wire bytes and wire names are one-to-one.
pub proof fn lemma_face_geometry_wire_injective(a: FaceGeometry, b: FaceGeometry)
    ensures
        a.spec_wire_byte() == b.spec_wire_byte() ==> a == b,
        a.spec_wire_str() == b.spec_wire_str() ==> a == b,
{
    lemma_face_geometry_wire_round_trip(a);
    lemma_face_geometry_wire_round_trip(b);
}

/// Every preset mirrors its eyes about the framebuffer's vertical centre
/// line `x = 160` and places them at the same height; distinct presets have
/// distinct baselines.
pub proof fn lemma_face_geometry_baselines(a: FaceGeometry, b: FaceGeometry)
    ensures
        160 - a.spec_baseline().0.center.x == a.spec_baseline().1.center.x - 160,
        a.spec_baseline().0.center.y == a.spec_baseline().1.center.y,
        a != b ==> a.spec_baseline() != b.spec_baseline(),
{
}

/// Coarse battery-level bucket for the on-screen indicator.
#[derive(Debug, Clone, Copy, PartialEq, Eq, Structural, Default, Hash)]
#[non_exhaustive]
pub enum BatteryBucket {
    /// `0..=9` — empty cell, urgent.
    Critical,
    /// `10..=24` — one segment.
    Low,
    /// `25..=49` — two segments.
    Medium,
    /// `50..=74` — three segments.
    High,
    /// `75..=100` — four segments (full). Out-of-range readings land here.
    #[default]
    Full,
}

impl BatteryBucket {
    /// The bucket a raw percent reading falls in.
    pub open spec fn spec_from_percent(p: u8) -> BatteryBucket {
        if p <= 9 {
            BatteryBucket::Critical
        } else if p <= 24 {
            BatteryBucket::Low
        } else if p <= 49 {
            BatteryBucket::Medium
        } else if p <= 74 {
            BatteryBucket::High
        } else {
            BatteryBucket::Full
        }
    }

    /// Map a raw `0..=100` percent reading to its rendered bucket.
    /// Out-of-range inputs saturate to [`Self::Full`].
    pub fn from_percent(p: u8) -> (r: Self)
        ensures
            r == BatteryBucket::spec_from_percent(p),
    {
        if p <= 9 {
            BatteryBucket::Critical
        } else if p <= 24 {
            BatteryBucket::Low
        } else if p <= 49 {
            BatteryBucket::Medium
        } else if p <= 74 {
            BatteryBucket::High
        } else {
            BatteryBucket::Full
        }
    }
}

/// On-screen battery indicator state.
#[derive(Debug, Clone, Copy, PartialEq, Eq, Structural, Default)]
pub struct BatteryOverlay {
    /// Quantised battery level for rendering.
    pub bucket: BatteryBucket,
    /// `true` while USB power is reported present.
    pub charging: bool,
}

/// The visual surface of the entity.
#[derive(Debug, Clone, Copy, PartialEq, Eq)]
pub struct Face {
    /// Left eye (viewer's left).
    pub left_eye: Eye,
    /// Right eye (viewer's right).
    pub right_eye: Eye,
    /// Mouth.
    pub mouth: Mouth,
    /// Emotion-driven appearance modulators.
    pub style: Style,
    /// Active decorator overlay. `None` is the steady state.
    pub decorator: Option<DecoratorState>,
    /// Active speech-bubble text overlay. `None` is the steady state.
    pub bubble: Option<BubbleState>,
    /// On-screen battery indicator. `None` is the steady state.
    pub battery_overlay: Option<BatteryOverlay>,
    /// Active colour palette.
    pub palette: Palette,
    /// Active geometry preset.
    pub geometry: FaceGeometry,
}

/// An open eye at full weight, in specifications.
pub open spec fn open_eye(x: i32, y: i32, r: u16) -> Eye {
    Eye { center: Point { x, y }, radius_x: r, radius_y: r, phase: EyePhase::Open, weight: 100, open_weight: 100 }
}

impl Face {
    /// Whether `self` is `old` with the baseline geometry of `geometry`
    /// swapped in and every dynamic field kept.
    pub open spec fn is_geometry_swap(self, old: Face, geometry: FaceGeometry) -> bool {
        let (l, r, m) = geometry.spec_baseline();
        &&& self.geometry == geometry
        &&& self.left_eye == (Eye { center: l.center, radius_x: l.radius_x, radius_y: l.radius_y, ..old.left_eye })
        &&& self.right_eye == (Eye { center: r.center, radius_x: r.radius_x, radius_y: r.radius_y, ..old.right_eye })
        &&& self.mouth == (Mouth { center: m.center, radius_x: m.radius_x, radius_y: m.radius_y, ..old.mouth })
        &&& self.style == old.style
        &&& self.decorator == old.decorator
        &&& self.bubble == old.bubble
        &&& self.battery_overlay == old.battery_overlay
        &&& self.palette == old.palette
    }

    /// The neutral resting face on the default geometry.
    pub open spec fn is_default_face(self) -> bool {
        &&& self.left_eye == open_eye(100, 110, 25)
        &&& self.right_eye == open_eye(220, 110, 25)
        &&& self.mouth == (Mouth { center: Point { x: 160, y: 180 }, radius_x: 32, radius_y: 10, weight: 0 })
        &&& self.style == Style::spec_default()
        &&& self.decorator is None
        &&& self.bubble is None
        &&& self.battery_overlay is None
        &&& self.palette == Palette::Default
        &&& self.geometry == FaceGeometry::Default
    }

    /// Construct a fresh `Face` initialised to the given geometry preset.
    pub fn with_geometry(geometry: FaceGeometry) -> (r: Self)
        ensures
            exists|d: Face| d.is_default_face() && r.is_geometry_swap(d, geometry),
    {
        let mut face = Self::default();
        let ghost d = face;
        face.set_geometry(geometry);
        assert(d.is_default_face() && face.is_geometry_swap(d, geometry));
        face
    }

    /// Swap the geometry preset, replacing baseline eye / mouth dimensions
    /// while preserving dynamic state (eye phase and weights, mouth weight),
    /// style and overlays.
    pub fn set_geometry(&mut self, geometry: FaceGeometry)
        ensures
            final(self).is_geometry_swap(*old(self), geometry),
    {
        let (left, right, mouth) = geometry.baseline();
        self.geometry = geometry;
        self.left_eye.center = left.center;
        self.left_eye.radius_x = left.radius_x;
        self.left_eye.radius_y = left.radius_y;
        self.right_eye.center = right.center;
        self.right_eye.radius_x = right.radius_x;
        self.right_eye.radius_y = right.radius_y;
        self.mouth.center = mouth.center;
        self.mouth.radius_x = mouth.radius_x;
        self.mouth.radius_y = mouth.radius_y;
    }
}

impl Default for Face {
    /// The neutral resting face: two round eyes + a small mouth, no
    /// emotion-driven modulation.
    fn default() -> (r: Self)
        ensures
            r.is_default_face(),
    {
        Self {
            left_eye: Eye {
                center: Point::new(100, 110),
                radius_x: 25,
                radius_y: 25,
                phase: EyePhase::Open,
                weight: 100,
                open_weight: 100,
            },
            right_eye: Eye {
                center: Point::new(220, 110),
                radius_x: 25,
                radius_y: 25,
                phase: EyePhase::Open,
                weight: 100,
                open_weight: 100,
            },
            mouth: Mouth { center: Point::new(160, 180), radius_x: 32, radius_y: 10, weight: 0 },
            style: Style::default(),
            decorator: None,
            bubble: None,
            battery_overlay: None,
            palette: Palette::Default,
            geometry: FaceGeometry::Default,
        }
    }
}

} // verus!
