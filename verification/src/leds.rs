//! LED-ring output: maps entity state onto a frame of RGB565 pixels for the
//! 12-pixel ring, coloured by emotion (or a listening teal), dimmed by a
//! global cap and a breath-phase envelope.
use vstd::prelude::*;
use crate::clock::Instant;
use crate::emotion::Emotion;
use crate::entity::Entity;
use crate::mind::Intent;

verus! {

/// Number of pixels on the ring.
pub const LED_COUNT: usize = 12;

/// Peak 8-bit brightness of any channel (about 40% of full drive).
pub const BRIGHTNESS_PEAK: u8 = 102;

/// The breath trough as tenths of the peak: 6 = 60%.
pub const BREATH_TROUGH_NUM: u32 = 6;
/// Denominator of [`BREATH_TROUGH_NUM`].
pub const BREATH_TROUGH_DEN: u32 = 10;
/// Full breath cycle, in ms, in phase with the default on-face breath.
pub const BREATH_CYCLE_MS: u64 = 6_000;

/// The "listening" teal, `0xRRGGBB`.
pub const LISTEN_PALETTE: u32 = 0x0010_C0A0;

/// A frame of RGB565 pixels (`RRRRRGGG_GGGBBBBB`), one per ring position.
#[derive(Debug, Clone, Copy, PartialEq, Eq)]
pub struct LedFrame(pub [u16; 12]);

impl Default for LedFrame {
    /// All pixels off.
    fn default() -> (r: Self)
        ensures
            forall|i: int| 0 <= i < 12 ==> r.0[i] == 0,
    {
        let px: [u16; 12] = [0u16, 0, 0, 0, 0, 0, 0, 0, 0, 0, 0, 0];
        LedFrame(px)
    }
}

impl LedFrame {
    /// The pixels as a slice.
    pub fn as_u16_slice(&self) -> (r: &[u16])
        ensures
            r@ == self.0@,
    {
        self.0.as_slice()
    }
}

/// The base colour of each emotion, `0xRRGGBB`: soft white for Neutral,
/// amber for Happy, deep blue for Sad, dim violet for Sleepy, cyan for
/// Surprised, red for Angry; every other emotion uses the neutral white.
pub open spec fn spec_palette(emotion: Emotion) -> u32 {
    match emotion {
        Emotion::Happy => 0x00FF_B020,
        Emotion::Sad => 0x0015_30A0,
        Emotion::Sleepy => 0x0030_1448,
        Emotion::Surprised => 0x0030_E0FF,
        Emotion::Angry => 0x00FF_2020,
        _ => 0x00FF_FFE8,
    }
}

fn palette(emotion: Emotion) -> (r: u32)
    ensures
        r == spec_palette(emotion),
{
    match emotion {
        Emotion::Happy => 0x00FF_B020,
        Emotion::Sad => 0x0015_30A0,
        Emotion::Sleepy => 0x0030_1448,
        Emotion::Surprised => 0x0030_E0FF,
        Emotion::Angry => 0x00FF_2020,
        _ => 0x00FF_FFE8,
    }
}

/// The frame's colour: the listening teal while listening, otherwise the
/// emotion's colour.
pub open spec fn spec_palette_for(intent: Intent, emotion: Emotion) -> u32 {
    if intent == Intent::Listen { LISTEN_PALETTE } else { spec_palette(emotion) }
}

fn palette_for(intent: Intent, emotion: Emotion) -> (r: u32)
    ensures
        r == spec_palette_for(intent, emotion),
{
    match intent {
        Intent::Listen => LISTEN_PALETTE,
        _ => palette(emotion),
    }
}

/// The breath envelope at `now_ms`: a triangle over [`BREATH_CYCLE_MS`]
/// from the trough (60% of the peak, 61) at the cycle start up to
/// [`BRIGHTNESS_PEAK`] at mid-cycle and back.
pub open spec fn spec_breath_brightness(now_ms: u64) -> u8 {
    let phase = now_ms % BREATH_CYCLE_MS;
    let half = BREATH_CYCLE_MS / 2;
    let within: int = if phase < half { phase as int } else { BREATH_CYCLE_MS - phase };
    let t = within * 255 / (half as int);
    let peak = BRIGHTNESS_PEAK as int;
    let trough = peak * (BREATH_TROUGH_NUM as int) / (BREATH_TROUGH_DEN as int);
    (trough + (peak - trough) * t / 255) as u8
}

/// The breath-phase brightness multiplier at `now`.
pub fn breath_brightness(now: Instant) -> (r: u8)
    ensures
        r == spec_breath_brightness(now@),
        61 <= r <= BRIGHTNESS_PEAK,
{
    let phase: u64 = now.as_millis() % BREATH_CYCLE_MS;
    let half: u64 = BREATH_CYCLE_MS / 2;
    let within: u64 = if phase < half { phase } else { BREATH_CYCLE_MS - phase };
    let t64: u64 = within * 255 / half;
    let t: u32 = t64 as u32;
    let peak: u32 = BRIGHTNESS_PEAK as u32;
    let trough: u32 = peak * BREATH_TROUGH_NUM / BREATH_TROUGH_DEN;
    assert(t <= 255) by (nonlinear_arith)
        requires
            within <= 3000,
            t == within * 255 / 3000,
    ;
    assert((peak - trough) * t / 255 <= 41) by (nonlinear_arith)
        requires
            peak - trough == 41,
            t <= 255,
    ;
    let envelope: u32 = trough + (peak - trough) * t / 255;
    envelope as u8
}

/// `channel * multiplier / 255`.
pub open spec fn spec_scale_channel(channel: u8, multiplier: u8) -> u8 {
    (channel * multiplier / 255) as u8
}

/// Scale one channel by an 8-bit multiplier.
pub fn scale_channel(channel: u8, multiplier: u8) -> (r: u8)
    ensures
        r == spec_scale_channel(channel, multiplier),
        r <= channel,
{
    assert(channel * multiplier / 255 <= channel) by (nonlinear_arith)
        requires
            0 <= channel <= 255,
            0 <= multiplier <= 255,
    ;
    let scaled: u32 = channel as u32 * multiplier as u32 / 255;
    scaled as u8
}

/// Pack RGB888 into RGB565: the top five bits of red, six of green and
/// five of blue.
pub open spec fn spec_rgb565(r: u8, g: u8, b: u8) -> u16 {
    (((r as u16) & 0xF8u16) << 8u16) | (((g as u16) & 0xFCu16) << 3u16) | ((b as u16) >> 3u16)
}

/// Pack an RGB888 triple into an RGB565 pixel.
pub fn rgb888_to_565(r: u8, g: u8, b: u8) -> (px: u16)
    ensures
        px == spec_rgb565(r, g, b),
{
    let r5: u16 = (r as u16 & 0xF8u16) << 8u16;
    let g6: u16 = (g as u16 & 0xFCu16) << 3u16;
    let b5: u16 = (b as u16) >> 3u16;
    r5 | g6 | b5
}

/// The packed channels read back: red from the top five bits, green from
/// the middle six, blue from the low five, each the top bits of the input.
pub proof fn lemma_rgb565_fields(r: u8, g: u8, b: u8)
    ensures
        spec_rgb565(r, g, b) >> 11u16 == (r >> 3u8) as u16,
        (spec_rgb565(r, g, b) >> 5u16) & 0x3Fu16 == (g >> 2u8) as u16,
        spec_rgb565(r, g, b) & 0x1Fu16 == (b >> 3u8) as u16,
{
    assert((((r as u16) & 0xF8u16) << 8u16 | ((g as u16) & 0xFCu16) << 3u16 | (b as u16) >> 3u16) >> 11u16
        == (r >> 3u8) as u16) by (bit_vector);
    assert(((((r as u16) & 0xF8u16) << 8u16 | ((g as u16) & 0xFCu16) << 3u16 | (b as u16) >> 3u16) >> 5u16)
        & 0x3Fu16 == (g >> 2u8) as u16) by (bit_vector);
    assert((((r as u16) & 0xF8u16) << 8u16 | ((g as u16) & 0xFCu16) << 3u16 | (b as u16) >> 3u16) & 0x1Fu16
        == (b >> 3u8) as u16) by (bit_vector);
}

/// The uniform pixel for `entity` at `now`: the palette colour, each
/// channel scaled by the breath envelope, or by the peak while a loud
/// sound is heard.
pub open spec fn spec_pixel(entity: Entity, now: Instant) -> u16 {
    let base = spec_palette_for(entity.mind.intent, entity.mind.affect.emotion);
    let brightness = if entity.mind.intent == Intent::HearingLoud { BRIGHTNESS_PEAK } else { spec_breath_brightness(now@) };
    spec_rgb565(
        spec_scale_channel(((base >> 16u32) & 0xFFu32) as u8, brightness),
        spec_scale_channel(((base >> 8u32) & 0xFFu32) as u8, brightness),
        spec_scale_channel((base & 0xFFu32) as u8, brightness),
    )
}

/// Render the ring for `entity` at `now`: every pixel gets the same colour.
pub fn render_leds(entity: &Entity, now: Instant, out: &mut LedFrame)
    ensures
        forall|i: int| 0 <= i < 12 ==> final(out).0[i] == spec_pixel(*entity, now),
{
    let base: u32 = palette_for(entity.mind.intent, entity.mind.affect.emotion);
    let r_raw: u8 = ((base >> 16u32) & 0xFFu32) as u8;
    let g_raw: u8 = ((base >> 8u32) & 0xFFu32) as u8;
    let b_raw: u8 = (base & 0xFFu32) as u8;
    let brightness: u8 = if matches!(entity.mind.intent, Intent::HearingLoud) {
        BRIGHTNESS_PEAK
    } else {
        breath_brightness(now)
    };
    let pixel: u16 = rgb888_to_565(
        scale_channel(r_raw, brightness),
        scale_channel(g_raw, brightness),
        scale_channel(b_raw, brightness),
    );
    let mut i: usize = 0;
    while i < LED_COUNT
        invariant
            i <= 12,
            pixel == spec_pixel(*entity, now),
            forall|j: int| 0 <= j < i ==> out.0[j] == pixel,
        decreases 12 - i,
    {
        out.0[i] = pixel;
        i = i + 1;
    }
}

/// The envelope peaks at mid-cycle and bottoms out at the cycle start.
pub proof fn lemma_breath_brightness_extremes(cycles: u64)
    requires
        cycles * BREATH_CYCLE_MS + BREATH_CYCLE_MS / 2 <= u64::MAX,
    ensures
        spec_breath_brightness((cycles * BREATH_CYCLE_MS) as u64) == 61,
        spec_breath_brightness((cycles * BREATH_CYCLE_MS + BREATH_CYCLE_MS / 2) as u64) == BRIGHTNESS_PEAK,
{
    let c = cycles as int;
    let start = (cycles * BREATH_CYCLE_MS) as u64;
    let mid = (cycles * BREATH_CYCLE_MS + BREATH_CYCLE_MS / 2) as u64;
    assert(start == c * 6000);
    assert(mid == c * 6000 + 3000);
    assert((c * 6000) % 6000 == 0) by (nonlinear_arith)
        requires
            c >= 0,
    ;
    assert((c * 6000 + 3000) % 6000 == 3000) by (nonlinear_arith)
        requires
            c >= 0,
    ;
    assert(start % BREATH_CYCLE_MS == 0);
    assert(mid % BREATH_CYCLE_MS == 3000);
    assert(102int * 6 / 10 == 61);
    assert(0int * 255 / 3000 == 0);
    assert(3000int * 255 / 3000 == 255);
    assert(41int * 0 / 255 == 0);
    assert(41int * 255 / 255 == 41);
}

/// The emotions the ring gives a colour of their own.
pub open spec fn has_own_colour(e: Emotion) -> bool {
    e == Emotion::Neutral || e == Emotion::Happy || e == Emotion::Sad || e == Emotion::Sleepy
        || e == Emotion::Surprised || e == Emotion::Angry
}

/// Each of Neutral, Happy, Sad, Sleepy, Surprised and Angry shows its own
/// colour on the ring: two different ones never share a base colour.
pub proof fn lemma_palette_distinct(a: Emotion, b: Emotion)
    requires
        has_own_colour(a),
        has_own_colour(b),
        a != b,
    ensures
        spec_palette(a) != spec_palette(b),
{
}

/// Red byte of a `0xRRGGBB` colour.
pub open spec fn red_of(c: u32) -> int {
    (c / 0x1_0000) as int % 256
}

/// Green byte of a `0xRRGGBB` colour.
pub open spec fn green_of(c: u32) -> int {
    (c / 0x100) as int % 256
}

/// Blue byte of a `0xRRGGBB` colour.
pub open spec fn blue_of(c: u32) -> int {
    c as int % 256
}

/// The base colours have their documented hues: Neutral a soft white (every
/// channel at least 0xE0), Happy amber (red over green over blue), Sad deep
/// blue (blue over green over red), Sleepy dim violet (blue over red over
/// green, all below 0x50), Surprised cyan (green and blue over red), Angry
/// red (red over green and blue, which are equal); any other emotion shows
/// Neutral's colour.
pub proof fn lemma_palette_hues(e: Emotion)
    ensures
        ({
            let c = spec_palette(e);
            &&& e == Emotion::Neutral ==> red_of(c) >= 0xE0 && green_of(c) >= 0xE0 && blue_of(c) >= 0xE0
            &&& e == Emotion::Happy ==> red_of(c) > green_of(c) > blue_of(c)
            &&& e == Emotion::Sad ==> blue_of(c) > green_of(c) > red_of(c)
            &&& e == Emotion::Sleepy ==> blue_of(c) > red_of(c) > green_of(c) && blue_of(c) < 0x50
            &&& e == Emotion::Surprised ==> green_of(c) > red_of(c) && blue_of(c) > red_of(c)
            &&& e == Emotion::Angry ==> red_of(c) > green_of(c) && green_of(c) == blue_of(c)
            &&& !has_own_colour(e) ==> c == spec_palette(Emotion::Neutral)
        }),
{
}

/// The breath envelope stays between the trough (61) and the peak.
pub proof fn lemma_breath_brightness_range(now_ms: u64)
    ensures
        61 <= spec_breath_brightness(now_ms) <= BRIGHTNESS_PEAK,
{
    let phase = now_ms % BREATH_CYCLE_MS;
    let within: int = if phase < 3000 { phase as int } else { 6000 - phase };
    assert(0 <= within <= 3000);
    let t = within * 255 / 3000;
    assert(0 <= t <= 255) by (nonlinear_arith)
        requires
            0 <= within <= 3000,
            t == within * 255 / 3000,
    ;
    assert(0 <= 41 * t / 255 <= 41) by (nonlinear_arith)
        requires
            0 <= t <= 255,
    ;
    assert(102int * 6 / 10 == 61);
}

/// Green and blue parts of the Sad colour after scaling by `b`, with the
/// five- and six-bit fields they pack into: blue stays ahead of both.
pub open spec fn sad_blue_leads(b: int) -> bool {
    (160 * b / 255) / 8 > (21 * b / 255) / 8 && (160 * b / 255) / 8 > (48 * b / 255) / 4
}

/// Sad shows blue on the ring: whenever the robot is not listening, at any
/// time, each pixel's blue field is larger than its red field and its green
/// field.
pub proof fn lemma_sad_ring_is_blue(e: Entity, now: Instant)
    requires
        e.mind.affect.emotion == Emotion::Sad,
        e.mind.intent != Intent::Listen,
    ensures
        spec_pixel(e, now) & 0x1Fu16 > spec_pixel(e, now) >> 11u16,
        spec_pixel(e, now) & 0x1Fu16 > (spec_pixel(e, now) >> 5u16) & 0x3Fu16,
{
    let base = spec_palette(Emotion::Sad);
    assert(((0x0015_30A0u32 >> 16u32) & 0xFFu32) == 0x15u32) by (bit_vector);
    assert(((0x0015_30A0u32 >> 8u32) & 0xFFu32) == 0x30u32) by (bit_vector);
    assert((0x0015_30A0u32 & 0xFFu32) == 0xA0u32) by (bit_vector);
    let b: u8 = if e.mind.intent == Intent::HearingLoud { BRIGHTNESS_PEAK } else { spec_breath_brightness(now@) };
    lemma_breath_brightness_range(now@);
    assert(61 <= b <= 102);
    let w: u32 = b as u32;
    assert((160 * w / 255) / 8 > (21 * w / 255) / 8 && (160 * w / 255) / 8 > (48 * w / 255) / 4) by (bit_vector)
        requires
            61u32 <= w <= 102u32,
    ;
    assert(sad_blue_leads(b as int));
    let rr = spec_scale_channel(0x15u8, b);
    let gg = spec_scale_channel(0x30u8, b);
    let bb = spec_scale_channel(0xA0u8, b);
    assert(rr as int == 21 * b / 255) by (nonlinear_arith)
        requires
            rr == ((0x15u8 * b / 255) as u8),
            0 <= b <= 102,
    ;
    assert(gg as int == 48 * b / 255) by (nonlinear_arith)
        requires
            gg == ((0x30u8 * b / 255) as u8),
            0 <= b <= 102,
    ;
    assert(bb as int == 160 * b / 255) by (nonlinear_arith)
        requires
            bb == ((0xA0u8 * b / 255) as u8),
            0 <= b <= 102,
    ;
    assert(spec_pixel(e, now) == spec_rgb565(rr, gg, bb));
    lemma_rgb565_fields(rr, gg, bb);
    assert(rr >> 3u8 == rr / 8) by (bit_vector);
    assert(gg >> 2u8 == gg / 4) by (bit_vector);
    assert(bb >> 3u8 == bb / 8) by (bit_vector);
}

} // verus!
