//! Face rendering as a display list: the shapes, positions, sizes and
//! colours that draw the face on a 320 × 240 framebuffer. A backend paints
//! the list onto its target in order.
use vstd::prelude::*;
use crate::decorator::Decorator;
use crate::face::{double_sat, spec_scaled_height, BatteryBucket, BatteryOverlay, Eye, EyePhase, Face, Mouth, SCALE_DEFAULT};
use crate::modifiers::breath::trunc_div;
use crate::entity::same_frame;

verus! {

/// An RGB565 colour: 5 bits of red, 6 of green, 5 of blue.
#[derive(Debug, Clone, Copy, PartialEq, Eq, Structural)]
pub struct Color565 {
    /// Red, `0..=31`.
    pub r: u8,
    /// Green, `0..=63`.
    pub g: u8,
    /// Blue, `0..=31`.
    pub b: u8,
}

/// The colour with channels `r`, `g`, `b`, each limited to its width by
/// dropping the unused high bits.
pub open spec fn spec_color(r: u8, g: u8, b: u8) -> Color565 {
    Color565 { r: r & 31u8, g: g & 63u8, b: b & 31u8 }
}

impl Color565 {
    /// A colour from its channels; too-large channel values lose their
    /// unused high bits.
    pub fn new(r: u8, g: u8, b: u8) -> (c: Self)
        ensures
            c == spec_color(r, g, b),
    {
        Color565 { r: r & 31u8, g: g & 63u8, b: b & 31u8 }
    }

    /// Every channel fits its width.
    pub open spec fn in_range(self) -> bool {
        self.r < 32 && self.g < 64 && self.b < 32
    }
}

/// Channels that fit their widths pass through unchanged.
pub proof fn lemma_color_in_range_unchanged(c: Color565)
    requires
        c.in_range(),
    ensures
        spec_color(c.r, c.g, c.b) == c,
{
    let (r, g, b) = (c.r, c.g, c.b);
    assert(r < 32 ==> r & 31u8 == r) by (bit_vector);
    assert(g < 64 ==> g & 63u8 == g) by (bit_vector);
    assert(b < 32 ==> b & 31u8 == b) by (bit_vector);
}

/// Black.
pub open spec fn black() -> Color565 {
    Color565 { r: 0, g: 0, b: 0 }
}

fn black_exec() -> (c: Color565)
    ensures
        c == black(),
{
    Color565 { r: 0, g: 0, b: 0 }
}

/// The colours a palette gives the face.
#[derive(Debug, Clone, Copy, PartialEq, Eq, Structural)]
pub struct PaletteColors {
    /// Background fill.
    pub background: Color565,
    /// Eye colour.
    pub eye: Color565,
    /// Mouth colour.
    pub mouth: Color565,
    /// Full-blush cheek colour.
    pub cheek: Color565,
}

/// One primitive of the display list. Positions are framebuffer pixels;
/// `top_left` is the corner of a shape's bounding box.
#[derive(Debug, Clone, Copy, PartialEq, Eq)]
pub enum Shape {
    /// Fill the whole target.
    Clear {
        /// Fill colour.
        color: Color565,
    },
    /// A filled circle.
    Circle {
        /// Bounding-box corner.
        top_left: (i32, i32),
        /// Diameter.
        diameter: u32,
        /// Fill colour.
        color: Color565,
    },
    /// A stroked circle.
    Ring {
        /// Bounding-box corner.
        top_left: (i32, i32),
        /// Diameter.
        diameter: u32,
        /// Stroke colour.
        color: Color565,
        /// Stroke width.
        width: u32,
    },
    /// A filled ellipse.
    Ellipse {
        /// Bounding-box corner.
        top_left: (i32, i32),
        /// Width and height.
        size: (u32, u32),
        /// Fill colour.
        color: Color565,
    },
    /// A filled rectangle.
    Rect {
        /// Corner.
        top_left: (i32, i32),
        /// Width and height.
        size: (u32, u32),
        /// Fill colour.
        color: Color565,
    },
    /// A stroked rectangle.
    Frame {
        /// Corner.
        top_left: (i32, i32),
        /// Width and height.
        size: (u32, u32),
        /// Stroke colour.
        color: Color565,
        /// Stroke width.
        width: u32,
    },
    /// A filled triangle.
    Triangle {
        /// First corner.
        a: (i32, i32),
        /// Second corner.
        b: (i32, i32),
        /// Third corner.
        c: (i32, i32),
        /// Fill colour.
        color: Color565,
    },
    /// A stroked straight line.
    Line {
        /// Start point.
        from: (i32, i32),
        /// End point.
        to: (i32, i32),
        /// Stroke colour.
        color: Color565,
        /// Stroke width.
        width: u32,
    },
    /// A stroked polyline through the 17 sample points of a parabolic arc.
    Arc {
        /// The sample points, left to right.
        points: [(i32, i32); 17],
        /// Stroke colour.
        color: Color565,
        /// Stroke width.
        width: u32,
    },
    /// The first `chars` characters of the bubble text in the 10 × 20
    /// font, centred on `center`.
    Label {
        /// Centre of the text.
        center: (i32, i32),
        /// How many characters of the text to draw.
        chars: usize,
        /// Text colour.
        color: Color565,
    },
}

/// Stroke width of lines and the mouth arc.
pub const LINE_WIDTH: u32 = 3;
/// Stroke width of the curved-eye arc.
pub const EYE_ARC_WIDTH: u32 = 5;
/// Number of segments in a sampled arc.
pub const ARC_SEGMENTS: i32 = 16;
/// Cheek circle diameter.
pub const CHEEK_DIAMETER: u32 = 18;
/// Gap between the bottom of the eye and the top of its cheek.
pub const CHEEK_VERTICAL_GAP: i32 = 6;

/// `a + b` wrapped into the `i32` range.
pub open spec fn wrap(a: int, b: int) -> i32 {
    (a + b) as i32
}

fn wrap_add(a: i32, b: i64) -> (r: i32)
    ensures
        r == wrap(a as int, b as int),
{
    (a as i128 + b as i128) as i32
}

/// The height of an oval with vertical half-axis `radius_y` drawn at
/// `weight` percent, never more than the full span.
pub fn scaled_height(radius_y: u16, weight: u8) -> (r: u16)
    ensures
        r == spec_scaled_height(radius_y, weight),
        r <= double_sat(radius_y),
{
    let full: u16 = if radius_y <= 32767 { radius_y * 2 } else { u16::MAX };
    assert((full as u32) * (weight as u32) <= 65535 * 255) by (nonlinear_arith)
        requires
            full <= 65535,
            weight <= 255,
    ;
    let scaled: u32 = (full as u32) * (weight as u32) / 100;
    if scaled < full as u32 {
        scaled as u16
    } else {
        full
    }
}

/// `radius * scale / SCALE_DEFAULT`, saturating at `u16::MAX`.
pub open spec fn spec_scale_radius(radius: u16, scale: u8) -> u16 {
    let s = radius * scale / (SCALE_DEFAULT as int);
    if s <= u16::MAX { s as u16 } else { u16::MAX }
}

/// Scale a radius by a style scale where [`SCALE_DEFAULT`] is the baseline.
pub fn scale_radius(radius: u16, scale: u8) -> (r: u16)
    ensures
        r == spec_scale_radius(radius, scale),
{
    assert((radius as u32) * (scale as u32) <= 65535 * 255) by (nonlinear_arith)
        requires
            radius <= 65535,
            scale <= 255,
    ;
    let scaled: u32 = (radius as u32) * (scale as u32) / (SCALE_DEFAULT as u32);
    if scaled <= u16::MAX as u32 {
        scaled as u16
    } else {
        u16::MAX
    }
}

/// At the default scale a radius is unchanged.
pub proof fn lemma_default_scale_keeps_radius(radius: u16)
    ensures
        spec_scale_radius(radius, SCALE_DEFAULT) == radius,
{
    assert(radius * 128 / 128 == radius) by (nonlinear_arith);
}

/// Filled battery segments per bucket: none when critical, four when full.
pub open spec fn spec_segment_count(bucket: BatteryBucket) -> u8 {
    match bucket {
        BatteryBucket::Critical => 0,
        BatteryBucket::Low => 1,
        BatteryBucket::Medium => 2,
        BatteryBucket::High => 3,
        BatteryBucket::Full => 4,
    }
}

/// How many battery segments to fill for a bucket.
pub fn segment_count(bucket: BatteryBucket) -> (r: u8)
    ensures
        r == spec_segment_count(bucket),
{
    match bucket {
        BatteryBucket::Critical => 0,
        BatteryBucket::Low => 1,
        BatteryBucket::Medium => 2,
        BatteryBucket::High => 3,
        BatteryBucket::Full => 4,
    }
}

/// Bubble layout constants.
pub const BUBBLE_BORDER_STROKE: u32 = 2;
/// Padding above and below the text.
pub const BUBBLE_VERTICAL_PADDING: i32 = 6;
/// Padding left and right of the text.
pub const BUBBLE_HORIZONTAL_PADDING: i32 = 8;
/// Top edge of the bubble.
pub const BUBBLE_ANCHOR_Y: i32 = 4;
/// Framebuffer width.
pub const BUBBLE_FB_WIDTH: i32 = 320;
/// Clearance from the framebuffer edges.
pub const BUBBLE_EDGE_CLEARANCE: i32 = 4;
/// Widest bubble.
pub const BUBBLE_MAX_WIDTH: i32 = 312;
/// Glyph width of the bubble font.
pub const BUBBLE_GLYPH_WIDTH: i32 = 10;
/// Glyph height of the bubble font.
pub const BUBBLE_GLYPH_HEIGHT: i32 = 20;
/// Most characters a bubble shows.
pub const BUBBLE_MAX_CHARS: usize = 29;

/// The bubble rectangle for a text of `char_count` characters: one glyph
/// per character (at least one), capped to the widest bubble, padded, and
/// centred horizontally below the top edge.
pub open spec fn spec_bubble_rect(char_count: usize) -> ((i32, i32), (u32, u32)) {
    let chars: int = if char_count == 0 { 1 } else { char_count as int };
    let raw_w: int = (chars as i32) * BUBBLE_GLYPH_WIDTH;
    let max_w: int = BUBBLE_MAX_WIDTH - 2 * BUBBLE_HORIZONTAL_PADDING;
    let text_w: int = if raw_w > max_w { max_w } else { raw_w };
    let total_w: int = text_w + 2 * BUBBLE_HORIZONTAL_PADDING;
    let total_h: int = BUBBLE_GLYPH_HEIGHT + 2 * BUBBLE_VERTICAL_PADDING;
    (((trunc_div(BUBBLE_FB_WIDTH - total_w, 2)) as i32, BUBBLE_ANCHOR_Y), (total_w as u32, total_h as u32))
}

/// The bubble's rectangle (corner, size) for a text of `char_count`
/// characters.
pub fn bubble_rect(char_count: usize) -> (r: ((i32, i32), (u32, u32)))
    requires
        i32::MIN <= ((if char_count == 0 { 1 } else { char_count as int }) as i32) * BUBBLE_GLYPH_WIDTH <= i32::MAX,
    ensures
        r == spec_bubble_rect(char_count),
{
    let chars: usize = if char_count == 0 { 1 } else { char_count };
    let raw_w: i32 = chars as i32 * BUBBLE_GLYPH_WIDTH;
    let max_w: i32 = BUBBLE_MAX_WIDTH - 2 * BUBBLE_HORIZONTAL_PADDING;
    let text_w: i32 = if raw_w > max_w { max_w } else { raw_w };
    let total_w: i64 = text_w as i64 + 2 * BUBBLE_HORIZONTAL_PADDING as i64;
    let total_h: i32 = BUBBLE_GLYPH_HEIGHT + 2 * BUBBLE_VERTICAL_PADDING;
    let span: i64 = BUBBLE_FB_WIDTH as i64 - total_w;
    let x: i64 = if span >= 0 { span / 2 } else { -((-span) / 2) };
    ((x as i32, BUBBLE_ANCHOR_Y), (total_w as u32, total_h as u32))
}

/// The shapes of a speech bubble showing a text of `char_count`
/// characters: the filled box, its border, and the text (at most
/// [`BUBBLE_MAX_CHARS`] characters) centred inside.
pub open spec fn spec_bubble_shapes(char_count: usize) -> Seq<Shape> {
    let visible: usize = if char_count > BUBBLE_MAX_CHARS { BUBBLE_MAX_CHARS } else { char_count };
    let (top_left, size) = spec_bubble_rect(visible);
    seq![
        Shape::Rect { top_left, size, color: Color565 { r: 28, g: 56, b: 28 } },
        Shape::Frame { top_left, size, color: black(), width: BUBBLE_BORDER_STROKE },
        Shape::Label {
            center: (
                wrap(top_left.0 as int, (size.0 / 2) as i32 as int),
                (BUBBLE_ANCHOR_Y + BUBBLE_VERTICAL_PADDING + BUBBLE_GLYPH_HEIGHT / 2) as i32,
            ),
            chars: visible,
            color: black(),
        },
    ]
}

/// The shapes of a speech bubble for a text of `char_count` characters.
pub fn bubble_shapes(char_count: usize) -> (r: Vec<Shape>)
    ensures
        r@ == spec_bubble_shapes(char_count),
{
    let visible: usize = if char_count > BUBBLE_MAX_CHARS { BUBBLE_MAX_CHARS } else { char_count };
    let (top_left, size) = bubble_rect(visible);
    let half: i32 = (size.0 / 2) as i32;
    let center_x: i32 = wrap_add(top_left.0, half as i64);
    let mut v: Vec<Shape> = Vec::new();
    v.push(Shape::Rect { top_left, size, color: Color565 { r: 28, g: 56, b: 28 } });
    v.push(Shape::Frame { top_left, size, color: black_exec(), width: BUBBLE_BORDER_STROKE });
    v.push(
        Shape::Label {
            center: (center_x, BUBBLE_ANCHOR_Y + BUBBLE_VERTICAL_PADDING + BUBBLE_GLYPH_HEIGHT / 2),
            chars: visible,
            color: black_exec(),
        },
    );
    proof {
        assert(v@ =~= spec_bubble_shapes(char_count));
    }
    v
}

/// Sample point `i` (of 17) of a parabolic arc centred on `(cx, cy)` with
/// half-width `half_w` whose midpoint sags `sag` pixels below the ends:
/// `x = cx + u * half_w / 16`, `y = cy + sag * (256 - u²) / 256` for
/// `u = 2i - 16`, quotients rounded toward zero.
pub open spec fn spec_arc_point(cx: i32, cy: i32, half_w: u16, sag: i32, i: int) -> (i32, i32) {
    let u = 2 * i - ARC_SEGMENTS;
    let n_sq = ARC_SEGMENTS * ARC_SEGMENTS;
    (wrap(cx as int, trunc_div(u * half_w, ARC_SEGMENTS as int)), wrap(cy as int, trunc_div(sag * (n_sq - u * u), n_sq)))
}

/// The 17 sample points of a parabolic arc.
pub fn arc_points(cx: i32, cy: i32, half_w: u16, sag: i32) -> (r: [(i32, i32); 17])
    ensures
        forall|i: int| 0 <= i < 17 ==> r[i] == spec_arc_point(cx, cy, half_w, sag, i),
{
    let mut points: [(i32, i32); 17] = [(0i32, 0i32); 17];
    let mut i: usize = 0;
    while i < 17
        invariant
            i <= 17,
            forall|j: int| 0 <= j < i ==> points[j] == spec_arc_point(cx, cy, half_w, sag, j),
        decreases 17 - i,
    {
        let u: i64 = 2 * (i as i64) - ARC_SEGMENTS as i64;
        assert(-0x10_0000 <= u * half_w <= 0x10_0000) by (nonlinear_arith)
            requires
                -16 <= u <= 16,
                0 <= half_w <= 65535,
        ;
        let xn: i64 = u * half_w as i64;
        let dx: i64 = if xn >= 0 { xn / 16 } else { -((-xn) / 16) };
        assert(0 <= 256 - u * u <= 256) by (nonlinear_arith)
            requires
                -16 <= u <= 16,
        ;
        assert(-0x100_0000_0000 < sag * (256 - u * u) < 0x100_0000_0000) by (nonlinear_arith)
            requires
                0 <= 256 - u * u <= 256,
                i32::MIN <= sag <= i32::MAX,
        ;
        let yn: i64 = sag as i64 * (256 - u * u);
        let dy: i64 = if yn >= 0 { yn / 256 } else { -((-yn) / 256) };
        points[i] = (wrap_add(cx, dx), wrap_add(cy, dy));
        i = i + 1;
    }
    points
}

/// The 17 sample points of a parabolic arc.
pub open spec fn spec_arc(cx: i32, cy: i32, half_w: u16, sag: i32) -> Seq<(i32, i32)> {
    Seq::new(17, |i: int| spec_arc_point(cx, cy, half_w, sag, i))
}

/// `s` is a stroked arc through the samples of `spec_arc(cx, cy, half_w,
/// sag)`.
pub open spec fn is_arc(s: Shape, cx: i32, cy: i32, half_w: u16, sag: i32, color: Color565, width: u32) -> bool {
    s matches Shape::Arc { points, color: c, width: w } && points@ == spec_arc(cx, cy, half_w, sag) && c == color && w == width
}

/// `s` draws one eye: a horizontal line when closed or flattened to
/// nothing, a filled ellipse when uncurved, otherwise a parabolic arc that
/// arches up for a positive curve. Radii are scaled by `scale`.
pub open spec fn is_eye_shape(s: Shape, eye: Eye, curve: i8, scale: u8, color: Color565) -> bool {
    let rx = spec_scale_radius(eye.radius_x, scale);
    let ry = spec_scale_radius(eye.radius_y, scale);
    let h = spec_scaled_height(ry, eye.weight);
    let (cx, cy) = (eye.center.x, eye.center.y);
    if eye.phase == EyePhase::Closed || h == 0 {
        s == Shape::Line { from: (wrap(cx as int, -(rx as int)), cy), to: (wrap(cx as int, rx as int), cy), color, width: LINE_WIDTH }
    } else if curve == 0 {
        let w = double_sat(rx);
        s == Shape::Ellipse {
            top_left: (wrap(cx as int, -((w / 2) as int)), wrap(cy as int, -((h / 2) as int))),
            size: (w as u32, h as u32),
            color,
        }
    } else {
        is_arc(s, cx, cy, rx, trunc_div(-curve * ry, 100) as i32, color, EYE_ARC_WIDTH)
    }
}

/// A curved eye arches the way its curve says: for an open eye of
/// non-zero drawn height, a positive curve (happy) puts the middle sample of
/// the arc above its ends on screen (smaller `y`), a negative curve (sad)
/// below them; the ends sit on the eye's centre line. The middle moves
/// once the curve bends the scaled radius by at least a pixel (`|curve| *
/// ry >= 100`), and otherwise stays on the line.
pub proof fn lemma_eye_arc_direction(s: Shape, eye: Eye, curve: i8, scale: u8, color: Color565)
    requires
        is_eye_shape(s, eye, curve, scale, color),
        eye.phase != EyePhase::Closed,
        spec_scaled_height(spec_scale_radius(eye.radius_y, scale), eye.weight) != 0,
        curve != 0,
        -0x4000_0000 <= eye.center.y <= 0x4000_0000,
        -0x4000_0000 <= eye.center.x <= 0x4000_0000,
    ensures
        s matches Shape::Arc { points, .. } && {
            let ry = spec_scale_radius(eye.radius_y, scale) as int;
            let mid = points@[8].1 as int;
            &&& points@[0].1 == eye.center.y
            &&& points@[16].1 == eye.center.y
            &&& curve > 0 ==> mid <= eye.center.y && (curve * ry >= 100 ==> mid < eye.center.y)
            &&& curve < 0 ==> mid >= eye.center.y && (-curve * ry >= 100 ==> mid > eye.center.y)
        },
{
    let ry = spec_scale_radius(eye.radius_y, scale) as int;
    let rx = spec_scale_radius(eye.radius_x, scale);
    let cy = eye.center.y;
    let sag = trunc_div(-curve * ry, 100) as i32;
    assert(-0x100_0000 <= -curve * ry <= 0x100_0000) by (nonlinear_arith)
        requires
            -128 <= curve <= 127,
            0 <= ry <= 65535,
    ;
    assert(sag as int == trunc_div(-curve * ry, 100));
    assert(curve > 0 ==> -curve * ry <= 0) by (nonlinear_arith)
        requires
            0 <= ry,
    ;
    assert(curve < 0 ==> -curve * ry >= 0) by (nonlinear_arith)
        requires
            0 <= ry,
    ;
    let p0 = spec_arc_point(eye.center.x, cy, rx, sag, 0);
    let p8 = spec_arc_point(eye.center.x, cy, rx, sag, 8);
    let p16 = spec_arc_point(eye.center.x, cy, rx, sag, 16);
    assert(ARC_SEGMENTS == 16);
    assert((2 * 0 - ARC_SEGMENTS) * (2 * 0 - ARC_SEGMENTS) == 256int) by (nonlinear_arith)
        requires
            ARC_SEGMENTS == 16,
    ;
    assert((2 * 16 - ARC_SEGMENTS) * (2 * 16 - ARC_SEGMENTS) == 256int) by (nonlinear_arith)
        requires
            ARC_SEGMENTS == 16,
    ;
    assert((2 * 8 - ARC_SEGMENTS) * (2 * 8 - ARC_SEGMENTS) == 0int) by (nonlinear_arith)
        requires
            ARC_SEGMENTS == 16,
    ;
    assert(ARC_SEGMENTS * ARC_SEGMENTS == 256int) by (nonlinear_arith)
        requires
            ARC_SEGMENTS == 16,
    ;
    assert(sag * (256int - 256int) == 0);
    assert(trunc_div(sag * (256int - 256int), 256) == 0);
    assert(sag * (256int - 0int) == sag * 256) by (nonlinear_arith);
    assert(trunc_div(sag * 256, 256) == sag) by (nonlinear_arith)
        requires
            -0x100_0000 <= sag <= 0x100_0000,
    {
        if sag >= 0 {
            assert((sag * 256) / 256 == sag);
        } else {
            assert((-(sag * 256)) / 256 == -sag);
        }
    }
    assert(wrap(cy as int, 0) == cy);
    assert(p0.1 == cy);
    assert(p16.1 == cy);
    assert(p8.1 == cy + sag);
    assert(curve > 0 ==> sag <= 0);
    assert(curve < 0 ==> sag >= 0);
    assert(-curve * ry == -(curve * ry)) by (nonlinear_arith);
    assert(curve > 0 && curve * ry >= 100 ==> sag <= -1);
    assert(curve < 0 && -curve * ry >= 100 ==> sag >= 1);
    match s {
        Shape::Arc { points, .. } => {
            assert(points@ == spec_arc(eye.center.x, cy, rx, sag));
            assert(points@[0] == p0);
            assert(points@[8] == p8);
            assert(points@[16] == p16);
        },
        _ => {},
    }
}

fn arc_shape(cx: i32, cy: i32, half_w: u16, sag: i32, color: Color565, width: u32) -> (s: Shape)
    ensures
        is_arc(s, cx, cy, half_w, sag, color, width),
{
    let points = arc_points(cx, cy, half_w, sag);
    proof {
        assert(points@ =~= spec_arc(cx, cy, half_w, sag));
    }
    Shape::Arc { points, color, width }
}

/// The shape of one eye.
pub fn eye_shape(eye: &Eye, curve: i8, scale: u8, color: Color565) -> (s: Shape)
    ensures
        is_eye_shape(s, *eye, curve, scale, color),
{
    let rx: u16 = scale_radius(eye.radius_x, scale);
    let ry: u16 = scale_radius(eye.radius_y, scale);
    let h: u16 = scaled_height(ry, eye.weight);
    let cx: i32 = eye.center.x;
    let cy: i32 = eye.center.y;
    if matches!(eye.phase, EyePhase::Closed) || h == 0 {
        return Shape::Line {
            from: (wrap_add(cx, -(rx as i64)), cy),
            to: (wrap_add(cx, rx as i64), cy),
            color,
            width: LINE_WIDTH,
        };
    }
    if curve == 0 {
        let w: u16 = if rx <= 32767 { rx * 2 } else { u16::MAX };
        return Shape::Ellipse {
            top_left: (wrap_add(cx, -((w / 2) as i64)), wrap_add(cy, -((h / 2) as i64))),
            size: (w as u32, h as u32),
            color,
        };
    }
    assert(-0x100_0000 <= -curve * ry <= 0x100_0000) by (nonlinear_arith)
        requires
            -128 <= curve <= 127,
            0 <= ry <= 65535,
    ;
    let n: i64 = -(curve as i64) * ry as i64;
    let q: i64 = if n >= 0 { n / 100 } else { -((-n) / 100) };
    let sag: i32 = q as i32;
    arc_shape(cx, cy, rx, sag, color, EYE_ARC_WIDTH)
}

/// `s` draws the mouth: a parabolic arc (smiling for a positive curve) when
/// curved; otherwise a filled ellipse as tall as the larger of the
/// weight-derived and audio-derived heights, or a horizontal line when both
/// are zero.
pub open spec fn is_mouth_shape(s: Shape, mouth: Mouth, curve: i8, color: Color565, audio_height: u16) -> bool {
    let (cx, cy) = (mouth.center.x, mouth.center.y);
    let wh = spec_scaled_height(mouth.radius_y, mouth.weight);
    let h = if wh >= audio_height { wh } else { audio_height };
    if curve != 0 {
        is_arc(s, cx, cy, mouth.radius_x, trunc_div(curve * mouth.radius_y, 100) as i32, color, LINE_WIDTH)
    } else if h == 0 {
        s == Shape::Line {
            from: (wrap(cx as int, -(mouth.radius_x as int)), cy),
            to: (wrap(cx as int, mouth.radius_x as int), cy),
            color,
            width: LINE_WIDTH,
        }
    } else {
        s == Shape::Ellipse {
            top_left: (wrap(cx as int, -(mouth.radius_x as int)), wrap(cy as int, -((h / 2) as int))),
            size: (double_sat(mouth.radius_x) as u32, h as u32),
            color,
        }
    }
}

/// A curved mouth bends the way its curve says: a positive curve (a smile)
/// puts the middle sample of the arc below its ends on screen (larger `y`),
/// a negative curve (a frown) above them; the ends sit on the mouth's
/// centre line. The middle moves once the curve bends the radius by at
/// least a pixel (`|curve| * radius_y >= 100`).
pub proof fn lemma_mouth_arc_direction(s: Shape, mouth: Mouth, curve: i8, color: Color565, audio_height: u16)
    requires
        is_mouth_shape(s, mouth, curve, color, audio_height),
        curve != 0,
        -0x4000_0000 <= mouth.center.y <= 0x4000_0000,
        -0x4000_0000 <= mouth.center.x <= 0x4000_0000,
    ensures
        s matches Shape::Arc { points, .. } && {
            let ry = mouth.radius_y as int;
            let mid = points@[8].1 as int;
            &&& points@[0].1 == mouth.center.y
            &&& points@[16].1 == mouth.center.y
            &&& curve > 0 ==> mid >= mouth.center.y && (curve * ry >= 100 ==> mid > mouth.center.y)
            &&& curve < 0 ==> mid <= mouth.center.y && (-curve * ry >= 100 ==> mid < mouth.center.y)
        },
{
    let ry = mouth.radius_y as int;
    let cy = mouth.center.y;
    let rx = mouth.radius_x;
    assert(-0x100_0000 <= curve * ry <= 0x100_0000) by (nonlinear_arith)
        requires
            -128 <= curve <= 127,
            0 <= ry <= 65535,
    ;
    let sag = trunc_div(curve * ry, 100) as i32;
    assert(sag as int == trunc_div(curve * ry, 100));
    assert(curve > 0 ==> curve * ry >= 0) by (nonlinear_arith)
        requires
            0 <= ry,
    ;
    assert(curve < 0 ==> curve * ry <= 0) by (nonlinear_arith)
        requires
            0 <= ry,
    ;
    assert(-curve * ry == -(curve * ry)) by (nonlinear_arith);
    assert(curve > 0 && curve * ry >= 100 ==> sag >= 1);
    assert(curve < 0 && -curve * ry >= 100 ==> sag <= -1);
    let p0 = spec_arc_point(mouth.center.x, cy, rx, sag, 0);
    let p8 = spec_arc_point(mouth.center.x, cy, rx, sag, 8);
    let p16 = spec_arc_point(mouth.center.x, cy, rx, sag, 16);
    assert(ARC_SEGMENTS == 16);
    assert((2 * 0 - ARC_SEGMENTS) * (2 * 0 - ARC_SEGMENTS) == 256int) by (nonlinear_arith)
        requires
            ARC_SEGMENTS == 16,
    ;
    assert((2 * 16 - ARC_SEGMENTS) * (2 * 16 - ARC_SEGMENTS) == 256int) by (nonlinear_arith)
        requires
            ARC_SEGMENTS == 16,
    ;
    assert((2 * 8 - ARC_SEGMENTS) * (2 * 8 - ARC_SEGMENTS) == 0int) by (nonlinear_arith)
        requires
            ARC_SEGMENTS == 16,
    ;
    assert(ARC_SEGMENTS * ARC_SEGMENTS == 256int) by (nonlinear_arith)
        requires
            ARC_SEGMENTS == 16,
    ;
    assert(sag * (256int - 256int) == 0);
    assert(trunc_div(sag * (256int - 256int), 256) == 0);
    assert(sag * (256int - 0int) == sag * 256) by (nonlinear_arith);
    assert(trunc_div(sag * 256, 256) == sag) by (nonlinear_arith)
        requires
            -0x100_0000 <= sag <= 0x100_0000,
    {
        if sag >= 0 {
            assert((sag * 256) / 256 == sag);
        } else {
            assert((-(sag * 256)) / 256 == -sag);
        }
    }
    assert(wrap(cy as int, 0) == cy);
    assert(p0.1 == cy);
    assert(p16.1 == cy);
    assert(p8.1 == cy + sag);
    match s {
        Shape::Arc { points, .. } => {
            assert(points@ == spec_arc(mouth.center.x, cy, rx, sag));
            assert(points@[0] == p0);
            assert(points@[8] == p8);
            assert(points@[16] == p16);
        },
        _ => {},
    }
}

/// The shape of the mouth, given the audio-driven open height in pixels.
pub fn mouth_shape(mouth: &Mouth, curve: i8, color: Color565, audio_height: u16) -> (s: Shape)
    ensures
        is_mouth_shape(s, *mouth, curve, color, audio_height),
{
    let cx: i32 = mouth.center.x;
    let cy: i32 = mouth.center.y;
    if curve != 0 {
        assert(-0x100_0000 <= curve * mouth.radius_y <= 0x100_0000) by (nonlinear_arith)
            requires
                -128 <= curve <= 127,
                0 <= mouth.radius_y <= 65535,
        ;
        let n: i64 = curve as i64 * mouth.radius_y as i64;
        let q: i64 = if n >= 0 { n / 100 } else { -((-n) / 100) };
        return arc_shape(cx, cy, mouth.radius_x, q as i32, color, LINE_WIDTH);
    }
    let wh: u16 = scaled_height(mouth.radius_y, mouth.weight);
    let h: u16 = if wh >= audio_height { wh } else { audio_height };
    if h == 0 {
        return Shape::Line {
            from: (wrap_add(cx, -(mouth.radius_x as i64)), cy),
            to: (wrap_add(cx, mouth.radius_x as i64), cy),
            color,
            width: LINE_WIDTH,
        };
    }
    let w: u16 = if mouth.radius_x <= 32767 { mouth.radius_x * 2 } else { u16::MAX };
    Shape::Ellipse {
        top_left: (wrap_add(cx, -(mouth.radius_x as i64)), wrap_add(cy, -((h / 2) as i64))),
        size: (w as u32, h as u32),
        color,
    }
}

/// One channel moved from `from` toward `to` by `t / 255` of the distance,
/// saturating at the `u8` range.
pub open spec fn spec_lerp(from: u8, to: u8, t: u8) -> u8 {
    if to >= from {
        let v = from + (to - from) * t / 255;
        (if v <= 255 { v } else { 255 }) as u8
    } else {
        let v = from - (from - to) * t / 255;
        (if v >= 0 { v } else { 0 }) as u8
    }
}

fn lerp(from: u8, to: u8, t: u8) -> (r: u8)
    ensures
        r == spec_lerp(from, to, t),
{
    let delta: u32 = if from >= to { (from - to) as u32 } else { (to - from) as u32 };
    assert(delta * (t as u32) <= 255 * 255) by (nonlinear_arith)
        requires
            delta <= 255,
            t <= 255,
    ;
    let shift: u32 = delta * (t as u32) / 255;
    assert(shift <= delta) by (nonlinear_arith)
        requires
            shift == delta * (t as u32) / 255,
            t <= 255,
    ;
    let shifted: u8 = shift as u8;
    if to >= from {
        if from as u32 + shifted as u32 <= 255 { from + shifted } else { 255 }
    } else {
        if from >= shifted { from - shifted } else { 0 }
    }
}

/// `from` blended toward `to` by `blush / 255`, channel by channel.
pub open spec fn spec_blend_blush(blush: u8, from: Color565, to: Color565) -> Color565 {
    spec_color(spec_lerp(from.r, to.r, blush), spec_lerp(from.g, to.g, blush), spec_lerp(from.b, to.b, blush))
}

/// Blend `from` toward `to` by `blush` (0 = `from`, 255 = `to`).
pub fn blend_blush(blush: u8, from: Color565, to: Color565) -> (c: Color565)
    ensures
        c == spec_blend_blush(blush, from, to),
{
    Color565::new(lerp(from.r, to.r, blush), lerp(from.g, to.g, blush), lerp(from.b, to.b, blush))
}

/// No blush leaves the background colour; full blush reaches the cheek
/// colour (for colours whose channels fit their widths).
pub proof fn lemma_blend_blush_endpoints(from: Color565, to: Color565)
    requires
        from.in_range(),
        to.in_range(),
    ensures
        spec_blend_blush(0, from, to) == from,
        spec_blend_blush(255, from, to) == to,
{
    assert(forall|a: int| a >= 0 ==> #[trigger] (a * 255) / 255 == a) by {
        assert forall|a: int| a >= 0 implies #[trigger] (a * 255) / 255 == a by {
            assert((a * 255) / 255 == a) by (nonlinear_arith);
        }
    }
    lemma_color_in_range_unchanged(from);
    lemma_color_in_range_unchanged(to);
}

/// The cheek under `eye`: a circle a fixed gap below the scaled eye, in the
/// background colour blended toward the cheek colour by `blush`.
pub open spec fn spec_cheek_shape(eye: Eye, blush: u8, eye_scale: u8, palette: PaletteColors) -> Shape {
    let ry = spec_scale_radius(eye.radius_y, eye_scale);
    let top = wrap(eye.center.y as int, ry + CHEEK_VERTICAL_GAP);
    Shape::Circle {
        top_left: (wrap(eye.center.x as int, -((CHEEK_DIAMETER / 2) as int)), top),
        diameter: CHEEK_DIAMETER,
        color: spec_blend_blush(blush, palette.background, palette.cheek),
    }
}

/// The cheek circle under `eye`.
pub fn cheek_shape(eye: &Eye, blush: u8, eye_scale: u8, palette: PaletteColors) -> (s: Shape)
    ensures
        s == spec_cheek_shape(*eye, blush, eye_scale, palette),
{
    let ry: u16 = scale_radius(eye.radius_y, eye_scale);
    let top: i32 = wrap_add(eye.center.y, ry as i64 + CHEEK_VERTICAL_GAP as i64);
    Shape::Circle {
        top_left: (wrap_add(eye.center.x, -((CHEEK_DIAMETER / 2) as i64)), top),
        diameter: CHEEK_DIAMETER,
        color: blend_blush(blush, palette.background, palette.cheek),
    }
}

/// Heart colour.
pub open spec fn heart_color() -> Color565 { Color565 { r: 31, g: 16, b: 12 } }
/// Sweat-drop colour.
pub open spec fn sweat_color() -> Color565 { Color565 { r: 8, g: 32, b: 28 } }
/// Pairing-indicator colour.
pub open spec fn pairing_color() -> Color565 { Color565 { r: 4, g: 18, b: 31 } }
/// Anger-mark colour.
pub open spec fn angry_color() -> Color565 { Color565 { r: 31, g: 8, b: 4 } }
/// Ear and shy-mark colour.
pub open spec fn ear_color() -> Color565 { Color565 { r: 31, g: 50, b: 22 } }
/// White.
pub open spec fn white() -> Color565 { Color565 { r: 31, g: 63, b: 31 } }

/// The shapes of each decorator, at its fixed anchor: a heart (two lobes
/// and a point) and a sweat drop on the right, a three-dot dizzy arc and a
/// pairing beacon at the top centre, an ear and an anger mark on the left,
/// blush marks under both eyes. The thinking decorator has no artwork.
pub open spec fn spec_decorator_shapes(kind: Decorator) -> Seq<Shape> {
    match kind {
        Decorator::Heart => seq![
            Shape::Circle { top_left: (260i32, 50i32), diameter: 12, color: heart_color() },
            Shape::Circle { top_left: (268i32, 50i32), diameter: 12, color: heart_color() },
            Shape::Triangle { a: (260i32, 61i32), b: (280i32, 61i32), c: (270i32, 74i32), color: heart_color() },
        ],
        Decorator::Sweat => seq![
            Shape::Ellipse { top_left: (264i32, 46i32), size: (12u32, 18u32), color: sweat_color() },
            Shape::Triangle { a: (266i32, 46i32), b: (274i32, 46i32), c: (270i32, 40i32), color: sweat_color() },
        ],
        Decorator::Dizzy => seq![
            Shape::Circle { top_left: (126i32, 26i32), diameter: 8, color: black() },
            Shape::Circle { top_left: (156i32, 30i32), diameter: 8, color: black() },
            Shape::Circle { top_left: (186i32, 26i32), diameter: 8, color: black() },
        ],
        Decorator::Ear => seq![
            Shape::Circle { top_left: (39i32, 39i32), diameter: 22, color: ear_color() },
            Shape::Circle { top_left: (44i32, 44i32), diameter: 12, color: white() },
        ],
        Decorator::Pairing => seq![
            Shape::Circle { top_left: (157i32, 27i32), diameter: 6, color: pairing_color() },
            Shape::Ring { top_left: (152i32, 22i32), diameter: 16, color: pairing_color(), width: 2 },
            Shape::Ring { top_left: (147i32, 17i32), diameter: 26, color: pairing_color(), width: 2 },
        ],
        Decorator::Angry => seq![
            Shape::Rect { top_left: (41i32, 43i32), size: (18u32, 3u32), color: angry_color() },
            Shape::Rect { top_left: (41i32, 51i32), size: (18u32, 3u32), color: angry_color() },
            Shape::Rect { top_left: (45i32, 39i32), size: (3u32, 18u32), color: angry_color() },
            Shape::Rect { top_left: (53i32, 39i32), size: (3u32, 18u32), color: angry_color() },
        ],
        Decorator::Shy => seq![
            Shape::Rect { top_left: (74i32, 171i32), size: (12u32, 2u32), color: ear_color() },
            Shape::Rect { top_left: (74i32, 175i32), size: (12u32, 2u32), color: ear_color() },
            Shape::Rect { top_left: (74i32, 179i32), size: (12u32, 2u32), color: ear_color() },
            Shape::Rect { top_left: (234i32, 171i32), size: (12u32, 2u32), color: ear_color() },
            Shape::Rect { top_left: (234i32, 175i32), size: (12u32, 2u32), color: ear_color() },
            Shape::Rect { top_left: (234i32, 179i32), size: (12u32, 2u32), color: ear_color() },
        ],
        Decorator::Thinking => Seq::empty(),
    }
}

/// Append the shapes of a decorator.
pub fn push_decorator_shapes(out: &mut Vec<Shape>, kind: Decorator)
    ensures
        final(out)@ == old(out)@ + spec_decorator_shapes(kind),
{
    let heart = Color565 { r: 31, g: 16, b: 12 };
    let sweat = Color565 { r: 8, g: 32, b: 28 };
    let pairing = Color565 { r: 4, g: 18, b: 31 };
    let angry = Color565 { r: 31, g: 8, b: 4 };
    let ear = Color565 { r: 31, g: 50, b: 22 };
    let black = black_exec();
    let white = Color565 { r: 31, g: 63, b: 31 };
    let ghost start = out@;
    match kind {
        Decorator::Heart => {
            out.push(Shape::Circle { top_left: (260, 50), diameter: 12, color: heart });
            out.push(Shape::Circle { top_left: (268, 50), diameter: 12, color: heart });
            out.push(Shape::Triangle { a: (260, 61), b: (280, 61), c: (270, 74), color: heart });
        },
        Decorator::Sweat => {
            out.push(Shape::Ellipse { top_left: (264, 46), size: (12, 18), color: sweat });
            out.push(Shape::Triangle { a: (266, 46), b: (274, 46), c: (270, 40), color: sweat });
        },
        Decorator::Dizzy => {
            out.push(Shape::Circle { top_left: (126, 26), diameter: 8, color: black });
            out.push(Shape::Circle { top_left: (156, 30), diameter: 8, color: black });
            out.push(Shape::Circle { top_left: (186, 26), diameter: 8, color: black });
        },
        Decorator::Ear => {
            out.push(Shape::Circle { top_left: (39, 39), diameter: 22, color: ear });
            out.push(Shape::Circle { top_left: (44, 44), diameter: 12, color: white });
        },
        Decorator::Pairing => {
            out.push(Shape::Circle { top_left: (157, 27), diameter: 6, color: pairing });
            out.push(Shape::Ring { top_left: (152, 22), diameter: 16, color: pairing, width: 2 });
            out.push(Shape::Ring { top_left: (147, 17), diameter: 26, color: pairing, width: 2 });
        },
        Decorator::Angry => {
            out.push(Shape::Rect { top_left: (41, 43), size: (18, 3), color: angry });
            out.push(Shape::Rect { top_left: (41, 51), size: (18, 3), color: angry });
            out.push(Shape::Rect { top_left: (45, 39), size: (3, 18), color: angry });
            out.push(Shape::Rect { top_left: (53, 39), size: (3, 18), color: angry });
        },
        Decorator::Shy => {
            out.push(Shape::Rect { top_left: (74, 171), size: (12, 2), color: ear });
            out.push(Shape::Rect { top_left: (74, 175), size: (12, 2), color: ear });
            out.push(Shape::Rect { top_left: (74, 179), size: (12, 2), color: ear });
            out.push(Shape::Rect { top_left: (234, 171), size: (12, 2), color: ear });
            out.push(Shape::Rect { top_left: (234, 175), size: (12, 2), color: ear });
            out.push(Shape::Rect { top_left: (234, 179), size: (12, 2), color: ear });
        },
        Decorator::Thinking => {},
    }
    proof {
        assert(out@ =~= start + spec_decorator_shapes(kind));
    }
}

/// Battery-indicator colours: critical red and charging green.
pub open spec fn critical_color() -> Color565 { Color565 { r: 31, g: 8, b: 4 } }
/// Charging-bolt colour.
pub open spec fn charging_color() -> Color565 { Color565 { r: 4, g: 50, b: 8 } }

/// Filled battery segment `i`: 5 × 8 pixels, one pixel apart, inside the
/// body.
pub open spec fn battery_segment(i: int) -> Shape {
    Shape::Rect { top_left: ((10 + 6 * i) as i32, 10i32), size: (5u32, 8u32), color: black() }
}

/// The battery indicator in the top-left corner: a red body fill when
/// critical, the outline, the terminal nub, one segment per quarter of
/// charge, and a green bolt while charging.
pub open spec fn spec_battery_shapes(overlay: BatteryOverlay) -> Seq<Shape> {
    let fill: Seq<Shape> = if overlay.bucket == BatteryBucket::Critical {
        seq![Shape::Rect { top_left: (8i32, 8i32), size: (28u32, 12u32), color: critical_color() }]
    } else {
        Seq::empty()
    };
    let outline = seq![
        Shape::Frame { top_left: (8i32, 8i32), size: (28u32, 12u32), color: black(), width: 2 },
        Shape::Rect { top_left: (36i32, 11i32), size: (3u32, 6u32), color: black() },
    ];
    let segments = Seq::new(spec_segment_count(overlay.bucket) as nat, |i: int| battery_segment(i));
    let bolt: Seq<Shape> = if overlay.charging {
        seq![Shape::Line { from: (22i32, 10i32), to: (22i32, 18i32), color: charging_color(), width: 2 }]
    } else {
        Seq::empty()
    };
    fill + outline + segments + bolt
}

/// Append the battery indicator's shapes.
pub fn push_battery_shapes(out: &mut Vec<Shape>, overlay: BatteryOverlay)
    ensures
        final(out)@ == old(out)@ + spec_battery_shapes(overlay),
{
    let ghost start = out@;
    let ink = black_exec();
    if matches!(overlay.bucket, BatteryBucket::Critical) {
        out.push(Shape::Rect { top_left: (8, 8), size: (28, 12), color: Color565 { r: 31, g: 8, b: 4 } });
    }
    out.push(Shape::Frame { top_left: (8, 8), size: (28, 12), color: ink, width: 2 });
    out.push(Shape::Rect { top_left: (36, 11), size: (3, 6), color: ink });
    let ghost before_segments = out@;
    let n: u8 = segment_count(overlay.bucket);
    let mut i: u8 = 0;
    while i < n
        invariant
            n == spec_segment_count(overlay.bucket),
            n <= 4,
            i <= n,
            ink == black(),
            out@ == before_segments + Seq::new(i as nat, |j: int| battery_segment(j)),
        decreases n - i,
    {
        let seg = Shape::Rect { top_left: (10 + 6 * (i as i32), 10), size: (5, 8), color: ink };
        assert(seg == battery_segment(i as int));
        out.push(seg);
        i = i + 1;
        proof {
            assert(out@ =~= before_segments + Seq::new(i as nat, |j: int| battery_segment(j)));
        }
    }
    if overlay.charging {
        out.push(Shape::Line { from: (22, 10), to: (22, 18), color: Color565 { r: 4, g: 50, b: 8 }, width: 2 });
    }
    proof {
        assert(out@ =~= start + spec_battery_shapes(overlay));
    }
}

/// The number of characters in `s`, counting no further than `cap`.
pub fn char_count_up_to(s: &str, cap: usize) -> (n: usize)
    ensures
        n == (if s@.len() <= cap { s@.len() as int } else { cap as int }),
{
    let mut n: usize = 0;
    for c in it: s.chars()
        invariant
            n == (if it.index() <= cap { it.index() } else { cap as int }),
            it.seq() == s@,
    {
        if n < cap {
            n = n + 1;
        }
    }
    n
}

/// The overlays drawn over the features, in order: the decorator, the
/// speech bubble, the battery indicator.
pub open spec fn spec_overlay_shapes(face: Face) -> Seq<Shape> {
    let deco = match face.decorator {
        Some(d) => spec_decorator_shapes(d.kind),
        None => Seq::empty(),
    };
    let bubble = match face.bubble {
        Some(b) => spec_bubble_shapes((if b.text@.len() <= BUBBLE_MAX_CHARS { b.text@.len() as int } else { BUBBLE_MAX_CHARS as int }) as usize),
        None => Seq::empty(),
    };
    let battery = match face.battery_overlay {
        Some(o) => spec_battery_shapes(o),
        None => Seq::empty(),
    };
    deco + bubble + battery
}

fn push_all(out: &mut Vec<Shape>, shapes: &Vec<Shape>)
    ensures
        final(out)@ == old(out)@ + shapes@,
{
    let ghost before = out@;
    let mut k: usize = 0;
    while k < shapes.len()
        invariant
            k <= shapes@.len(),
            out@ == before + shapes@.subrange(0, k as int),
        decreases shapes@.len() - k,
    {
        out.push(shapes[k]);
        k = k + 1;
        proof {
            assert(out@ =~= before + shapes@.subrange(0, k as int));
        }
    }
    proof {
        assert(shapes@.subrange(0, shapes@.len() as int) =~= shapes@);
    }
}

fn push_overlays(out: &mut Vec<Shape>, face: &Face)
    ensures
        final(out)@ == old(out)@ + spec_overlay_shapes(*face),
{
    let ghost start = out@;
    if let Some(state) = face.decorator {
        push_decorator_shapes(out, state.kind);
    }
    if let Some(state) = face.bubble {
        let visible: usize = char_count_up_to(state.text, BUBBLE_MAX_CHARS);
        let shapes = bubble_shapes(visible);
        push_all(out, &shapes);
    }
    if let Some(overlay) = face.battery_overlay {
        push_battery_shapes(out, overlay);
    }
    proof {
        assert(out@ =~= start + spec_overlay_shapes(*face));
    }
}

/// `r` is the display list of `face` in colours `palette` with the mouth
/// opened `audio_height` pixels by audio: the background; the cheeks when
/// blushing; both eyes; the mouth; then the overlays.
pub open spec fn is_display_list(face: Face, palette: PaletteColors, audio_height: u16, r: Seq<Shape>) -> bool {
    let base: int = if face.style.cheek_blush > 0 { 3 } else { 1 };
    &&& r.len() == base + 3 + spec_overlay_shapes(face).len()
    &&& r[0] == (Shape::Clear { color: palette.background })
    &&& face.style.cheek_blush > 0 ==> r[1] == spec_cheek_shape(face.left_eye, face.style.cheek_blush, face.style.eye_scale, palette)
        && r[2] == spec_cheek_shape(face.right_eye, face.style.cheek_blush, face.style.eye_scale, palette)
    &&& is_eye_shape(r[base], face.left_eye, face.style.eye_curve, face.style.eye_scale, palette.eye)
    &&& is_eye_shape(r[base + 1], face.right_eye, face.style.eye_curve, face.style.eye_scale, palette.eye)
    &&& is_mouth_shape(r[base + 2], face.mouth, face.style.mouth_curve, palette.mouth, audio_height)
    &&& r.subrange(base + 3, r.len() as int) == spec_overlay_shapes(face)
}

/// Faces that [`crate::entity::Entity::frame_eq`] finds equal paint alike:
/// in the same colours and mouth opening, a list is the display list of one
/// exactly when it is the display list of the other.
pub proof fn lemma_same_frame_same_display_list(a: Face, b: Face, palette: PaletteColors, audio_height: u16, r: Seq<Shape>)
    requires
        same_frame(a, b),
    ensures
        is_display_list(a, palette, audio_height, r) <==> is_display_list(b, palette, audio_height, r),
{
    assert(spec_overlay_shapes(a) == spec_overlay_shapes(b));
}

impl Face {
    /// The face's display list, painted in order: the background; the
    /// cheeks when blushing (under the eyes); both eyes; the mouth; then the
    /// decorator, bubble and battery overlays. `audio_height` is the
    /// audio-driven mouth opening in pixels.
    pub fn display_list(&self, palette: PaletteColors, audio_height: u16) -> (r: Vec<Shape>)
        ensures
            is_display_list(*self, palette, audio_height, r@),
    {
        let mut out: Vec<Shape> = Vec::new();
        out.push(Shape::Clear { color: palette.background });
        if self.style.cheek_blush > 0 {
            out.push(cheek_shape(&self.left_eye, self.style.cheek_blush, self.style.eye_scale, palette));
            out.push(cheek_shape(&self.right_eye, self.style.cheek_blush, self.style.eye_scale, palette));
        }
        out.push(eye_shape(&self.left_eye, self.style.eye_curve, self.style.eye_scale, palette.eye));
        out.push(eye_shape(&self.right_eye, self.style.eye_curve, self.style.eye_scale, palette.eye));
        out.push(mouth_shape(&self.mouth, self.style.mouth_curve, palette.mouth, audio_height));
        let ghost head = out@;
        push_overlays(&mut out, self);
        proof {
            assert(out@.subrange(head.len() as int, out@.len() as int) =~= spec_overlay_shapes(*self));
            assert(out@[head.len() - 1] == head[head.len() - 1]);
            assert(out@[head.len() - 2] == head[head.len() - 2]);
            assert(out@[head.len() - 3] == head[head.len() - 3]);
        }
        out
    }
}

} // verus!
