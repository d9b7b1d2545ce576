//! Frame orchestration: the tick phases, the field catalogue modifiers
//! declare their reads and writes against, and the [`Director`] registry
//! that orders modifiers and skills and stamps each frame.
use vstd::prelude::*;
use crate::clock::Instant;
use crate::entity::{Entity, Tick, same_frame, str_eq};
use crate::events::Events;
use crate::face::Face;
use crate::modifier::Modifier;
use crate::skill::Skill;
use crate::registry::{
    modifier_keys, modifier_keys_get, modifier_keys_insert, modifier_keys_len, modifier_keys_new,
    skill_keys, skill_keys_get, skill_keys_insert, skill_keys_len, skill_keys_new,
};

verus! {

/// Maximum number of modifiers a [`Director`] can hold.
pub const MODIFIER_CAP: usize = 32;

/// Maximum number of skills a [`Director`] can hold.
pub const SKILL_CAP: usize = 16;

/// Phases of the per-frame tick, in execution order.
#[derive(Copy, Clone, Debug, PartialEq, Eq, Structural, PartialOrd, Ord)]
pub enum Phase {
    /// Sensors → world model.
    Perception,
    /// World model + memory → intent.
    Cognition,
    /// Intent + sensors → emotion.
    Affect,
    /// Intent → speech queue.
    Speech,
    /// Emotion → face style.
    Expression,
    /// Symbolic overlays on top of the expressed face.
    Decoration,
    /// Intent + emotion → pose.
    Motion,
    /// Audio-driven visual updates.
    Audio,
    /// Face → frame, pose → servos.
    Output,
}

impl Phase {
    /// Numeric rank of a phase: tens with gaps, `Decoration` between
    /// `Expression` and `Motion`.
    pub open spec fn spec_rank(self) -> u8 {
        match self {
            Phase::Perception => 10,
            Phase::Cognition => 20,
            Phase::Affect => 30,
            Phase::Speech => 40,
            Phase::Expression => 50,
            Phase::Decoration => 55,
            Phase::Motion => 60,
            Phase::Audio => 70,
            Phase::Output => 80,
        }
    }

    /// Numeric rank of the phase; modifiers run in ascending rank.
    pub fn rank(self) -> (r: u8)
        ensures
            r == self.spec_rank(),
    {
        match self {
            Phase::Perception => 10,
            Phase::Cognition => 20,
            Phase::Affect => 30,
            Phase::Speech => 40,
            Phase::Expression => 50,
            Phase::Decoration => 55,
            Phase::Motion => 60,
            Phase::Audio => 70,
            Phase::Output => 80,
        }
    }
}

/// Distinct phases have distinct ranks.
pub proof fn lemma_phase_rank_injective(a: Phase, b: Phase)
    ensures
        a.spec_rank() == b.spec_rank() ==> a == b,
{
}

/// Position of a phase in the declared frame order, starting at zero:
/// Perception, Cognition, Affect, Speech, Expression, Decoration, Motion,
/// Audio, Output.
pub open spec fn phase_position(p: Phase) -> int {
    match p {
        Phase::Perception => 0,
        Phase::Cognition => 1,
        Phase::Affect => 2,
        Phase::Speech => 3,
        Phase::Expression => 4,
        Phase::Decoration => 5,
        Phase::Motion => 6,
        Phase::Audio => 7,
        Phase::Output => 8,
    }
}

/// The rank follows the frame order strictly: a phase declared earlier
/// has a smaller rank (cognition picks an intent before emotion follows,
/// and so on down to output).
pub proof fn lemma_phase_rank_follows_order(a: Phase, b: Phase)
    ensures
        phase_position(a) < phase_position(b) ==> a.spec_rank() < b.spec_rank(),
        phase_position(a) == phase_position(b) ==> a == b,
{
}

/// Coarse buckets for the [`Field`] enum.
#[derive(Copy, Clone, Debug, PartialEq, Eq, Structural)]
pub enum FieldGroup {
    /// Visual surface.
    Face,
    /// Physical motion.
    Motor,
    /// Sensor inputs.
    Perception,
    /// Cognitive layer.
    Mind,
    /// Speech I/O.
    Voice,
    /// Pending firmware → modifier inputs.
    Input,
}

/// Fine-grained identifiers for the entity's mutable surface.
#[derive(Copy, Clone, Debug, PartialEq, Eq, Structural)]
#[non_exhaustive]
pub enum Field {
    /// `face.left_eye.phase`
    LeftEyePhase,
    /// `face.left_eye.weight`
    LeftEyeWeight,
    /// `face.left_eye.open_weight`
    LeftEyeOpenWeight,
    /// `face.left_eye.center`
    LeftEyeCenter,
    /// `face.right_eye.phase`
    RightEyePhase,
    /// `face.right_eye.weight`
    RightEyeWeight,
    /// `face.right_eye.open_weight`
    RightEyeOpenWeight,
    /// `face.right_eye.center`
    RightEyeCenter,
    /// `face.mouth.weight`
    MouthWeight,
    /// `face.mouth.mouth_open` (audio-driven, floating point)
    MouthOpen,
    /// `face.mouth.center`
    MouthCenter,
    /// `face.style.eye_curve`
    EyeCurve,
    /// `face.style.mouth_curve`
    MouthCurve,
    /// `face.style.cheek_blush`
    CheekBlush,
    /// `face.style.eye_scale`
    EyeScale,
    /// `face.style.blink_rate_scale`
    BlinkRateScale,
    /// `face.style.breath_depth_scale`
    BreathDepthScale,
    /// `motor.head_pose` (floating point)
    HeadPose,
    /// `motor.head_pose_actual` (floating point)
    HeadPoseActual,
    /// `perception.accel_g` (floating point)
    AccelG,
    /// `perception.gyro_dps` (floating point)
    GyroDps,
    /// `perception.ambient_lux` (floating point)
    AmbientLux,
    /// `perception.battery_percent`
    BatteryPercent,
    /// `perception.usb_power_present`
    UsbPowerPresent,
    /// `perception.audio_rms` (floating point)
    AudioRms,
    /// `perception.body_touch`
    BodyTouch,
    /// `perception.tracking`
    Tracking,
    /// `mind.affect.emotion`
    Emotion,
    /// `mind.autonomy.manual_until` + `source`
    Autonomy,
    /// `mind.intent`
    Intent,
    /// `mind.attention`
    Attention,
    /// `voice.chirp_request`
    ChirpRequest,
    /// `input.tap_pending`
    TapPending,
    /// `input.remote_pending`
    RemotePending,
    /// `face.decorator`
    Decorator,
    /// `face.bubble`
    Bubble,
    /// `face.battery_overlay`
    BatteryOverlay,
    /// `mind.dormancy`
    Dormancy,
    /// `mind.engagement`
    Engagement,
}

impl Field {
    /// The field catalogue of the base tick surface (every field that
    /// predates the decoration and dormancy layers).
    pub const ALL: &'static [Field; 34] = &[
        Field::LeftEyePhase,
        Field::LeftEyeWeight,
        Field::LeftEyeOpenWeight,
        Field::LeftEyeCenter,
        Field::RightEyePhase,
        Field::RightEyeWeight,
        Field::RightEyeOpenWeight,
        Field::RightEyeCenter,
        Field::MouthWeight,
        Field::MouthOpen,
        Field::MouthCenter,
        Field::EyeCurve,
        Field::MouthCurve,
        Field::CheekBlush,
        Field::EyeScale,
        Field::BlinkRateScale,
        Field::BreathDepthScale,
        Field::HeadPose,
        Field::HeadPoseActual,
        Field::AccelG,
        Field::GyroDps,
        Field::AmbientLux,
        Field::BatteryPercent,
        Field::UsbPowerPresent,
        Field::AudioRms,
        Field::BodyTouch,
        Field::Tracking,
        Field::Emotion,
        Field::Autonomy,
        Field::Intent,
        Field::Attention,
        Field::ChirpRequest,
        Field::TapPending,
        Field::RemotePending,
    ];

    /// Every field the write check compares: the base catalogue followed by
    /// the decoration and dormancy fields.
    pub const WRITE_CHECKED: &'static [Field; 39] = &[
        Field::LeftEyePhase,
        Field::LeftEyeWeight,
        Field::LeftEyeOpenWeight,
        Field::LeftEyeCenter,
        Field::RightEyePhase,
        Field::RightEyeWeight,
        Field::RightEyeOpenWeight,
        Field::RightEyeCenter,
        Field::MouthWeight,
        Field::MouthOpen,
        Field::MouthCenter,
        Field::EyeCurve,
        Field::MouthCurve,
        Field::CheekBlush,
        Field::EyeScale,
        Field::BlinkRateScale,
        Field::BreathDepthScale,
        Field::HeadPose,
        Field::HeadPoseActual,
        Field::AccelG,
        Field::GyroDps,
        Field::AmbientLux,
        Field::BatteryPercent,
        Field::UsbPowerPresent,
        Field::AudioRms,
        Field::BodyTouch,
        Field::Tracking,
        Field::Emotion,
        Field::Autonomy,
        Field::Intent,
        Field::Attention,
        Field::ChirpRequest,
        Field::TapPending,
        Field::RemotePending,
        Field::Decorator,
        Field::Bubble,
        Field::BatteryOverlay,
        Field::Dormancy,
        Field::Engagement,
    ];

    /// The coarse group of a field.
    pub open spec fn spec_group(self) -> FieldGroup {
        match self {
            Field::LeftEyePhase | Field::LeftEyeWeight | Field::LeftEyeOpenWeight | Field::LeftEyeCenter
            | Field::RightEyePhase | Field::RightEyeWeight | Field::RightEyeOpenWeight
            | Field::RightEyeCenter | Field::MouthWeight | Field::MouthOpen | Field::MouthCenter
            | Field::EyeCurve | Field::MouthCurve | Field::CheekBlush | Field::EyeScale
            | Field::BlinkRateScale | Field::BreathDepthScale | Field::Decorator | Field::Bubble
            | Field::BatteryOverlay => FieldGroup::Face,
            Field::HeadPose | Field::HeadPoseActual => FieldGroup::Motor,
            Field::AccelG | Field::GyroDps | Field::AmbientLux | Field::BatteryPercent
            | Field::UsbPowerPresent | Field::AudioRms | Field::BodyTouch
            | Field::Tracking => FieldGroup::Perception,
            Field::Emotion | Field::Autonomy | Field::Intent | Field::Attention | Field::Dormancy
            | Field::Engagement => FieldGroup::Mind,
            Field::ChirpRequest => FieldGroup::Voice,
            Field::TapPending | Field::RemotePending => FieldGroup::Input,
        }
    }

    /// Coarse grouping for human-readable reports.
    pub fn group(self) -> (r: FieldGroup)
        ensures
            r == self.spec_group(),
    {
        match self {
            Field::LeftEyePhase | Field::LeftEyeWeight | Field::LeftEyeOpenWeight | Field::LeftEyeCenter
            | Field::RightEyePhase | Field::RightEyeWeight | Field::RightEyeOpenWeight
            | Field::RightEyeCenter | Field::MouthWeight | Field::MouthOpen | Field::MouthCenter
            | Field::EyeCurve | Field::MouthCurve | Field::CheekBlush | Field::EyeScale
            | Field::BlinkRateScale | Field::BreathDepthScale | Field::Decorator | Field::Bubble
            | Field::BatteryOverlay => FieldGroup::Face,
            Field::HeadPose | Field::HeadPoseActual => FieldGroup::Motor,
            Field::AccelG | Field::GyroDps | Field::AmbientLux | Field::BatteryPercent
            | Field::UsbPowerPresent | Field::AudioRms | Field::BodyTouch
            | Field::Tracking => FieldGroup::Perception,
            Field::Emotion | Field::Autonomy | Field::Intent | Field::Attention | Field::Dormancy
            | Field::Engagement => FieldGroup::Mind,
            Field::ChirpRequest => FieldGroup::Voice,
            Field::TapPending | Field::RemotePending => FieldGroup::Input,
        }
    }

    /// Whether the entity component this field names differs between
    /// `before` and `after`. Floating-point fields (`MouthOpen`, `HeadPose`,
    /// `HeadPoseActual`, `AccelG`, `GyroDps`, `AudioRms`) have no component in
    /// the integer entity, so they never differ here; `AmbientLux` differs when
    /// its classified reading does.
    pub open spec fn spec_changed(self, before: Entity, after: Entity) -> bool {
        let (b, a) = (before, after);
        match self {
            Field::LeftEyePhase => b.face.left_eye.phase != a.face.left_eye.phase,
            Field::LeftEyeWeight => b.face.left_eye.weight != a.face.left_eye.weight,
            Field::LeftEyeOpenWeight => b.face.left_eye.open_weight != a.face.left_eye.open_weight,
            Field::LeftEyeCenter => b.face.left_eye.center != a.face.left_eye.center,
            Field::RightEyePhase => b.face.right_eye.phase != a.face.right_eye.phase,
            Field::RightEyeWeight => b.face.right_eye.weight != a.face.right_eye.weight,
            Field::RightEyeOpenWeight => b.face.right_eye.open_weight != a.face.right_eye.open_weight,
            Field::RightEyeCenter => b.face.right_eye.center != a.face.right_eye.center,
            Field::MouthWeight => b.face.mouth.weight != a.face.mouth.weight,
            Field::MouthCenter => b.face.mouth.center != a.face.mouth.center,
            Field::EyeCurve => b.face.style.eye_curve != a.face.style.eye_curve,
            Field::MouthCurve => b.face.style.mouth_curve != a.face.style.mouth_curve,
            Field::CheekBlush => b.face.style.cheek_blush != a.face.style.cheek_blush,
            Field::EyeScale => b.face.style.eye_scale != a.face.style.eye_scale,
            Field::BlinkRateScale => b.face.style.blink_rate_scale != a.face.style.blink_rate_scale,
            Field::BreathDepthScale => b.face.style.breath_depth_scale != a.face.style.breath_depth_scale,
            Field::BatteryPercent => b.perception.battery_percent != a.perception.battery_percent,
            Field::UsbPowerPresent => b.perception.usb_power_present != a.perception.usb_power_present,
            Field::BodyTouch => b.perception.body_touch != a.perception.body_touch,
            Field::Tracking => b.perception.tracking != a.perception.tracking,
            Field::AmbientLux => b.perception.ambient != a.perception.ambient,
            Field::Emotion => b.mind.affect.emotion != a.mind.affect.emotion,
            Field::Autonomy => b.mind.autonomy != a.mind.autonomy,
            Field::Intent => b.mind.intent != a.mind.intent,
            Field::Attention => b.mind.attention != a.mind.attention,
            Field::ChirpRequest => b.voice.chirp_request != a.voice.chirp_request,
            Field::TapPending => b.input.tap_pending != a.input.tap_pending,
            Field::RemotePending => b.input.remote_pending != a.input.remote_pending,
            Field::Decorator => b.face.decorator != a.face.decorator,
            Field::Bubble => !bubble_same(b.face, a.face),
            Field::BatteryOverlay => b.face.battery_overlay != a.face.battery_overlay,
            Field::Dormancy => b.mind.dormancy != a.mind.dormancy,
            Field::Engagement => b.mind.engagement != a.mind.engagement,
            Field::MouthOpen | Field::HeadPose | Field::HeadPoseActual | Field::AccelG
            | Field::GyroDps | Field::AudioRms => false,
        }
    }

    /// `true` iff this field's value differs between `before` and `after`.
    /// Used by the write enforcement to detect undeclared mutations.
    pub fn changed(self, before: &Entity, after: &Entity) -> (r: bool)
        ensures
            r == self.spec_changed(*before, *after),
    {
        let (b, a) = (before, after);
        match self {
            Field::LeftEyePhase => b.face.left_eye.phase != a.face.left_eye.phase,
            Field::LeftEyeWeight => b.face.left_eye.weight != a.face.left_eye.weight,
            Field::LeftEyeOpenWeight => b.face.left_eye.open_weight != a.face.left_eye.open_weight,
            Field::LeftEyeCenter => b.face.left_eye.center != a.face.left_eye.center,
            Field::RightEyePhase => b.face.right_eye.phase != a.face.right_eye.phase,
            Field::RightEyeWeight => b.face.right_eye.weight != a.face.right_eye.weight,
            Field::RightEyeOpenWeight => b.face.right_eye.open_weight != a.face.right_eye.open_weight,
            Field::RightEyeCenter => b.face.right_eye.center != a.face.right_eye.center,
            Field::MouthWeight => b.face.mouth.weight != a.face.mouth.weight,
            Field::MouthCenter => b.face.mouth.center != a.face.mouth.center,
            Field::EyeCurve => b.face.style.eye_curve != a.face.style.eye_curve,
            Field::MouthCurve => b.face.style.mouth_curve != a.face.style.mouth_curve,
            Field::CheekBlush => b.face.style.cheek_blush != a.face.style.cheek_blush,
            Field::EyeScale => b.face.style.eye_scale != a.face.style.eye_scale,
            Field::BlinkRateScale => b.face.style.blink_rate_scale != a.face.style.blink_rate_scale,
            Field::BreathDepthScale => b.face.style.breath_depth_scale != a.face.style.breath_depth_scale,
            Field::BatteryPercent => b.perception.battery_percent != a.perception.battery_percent,
            Field::UsbPowerPresent => b.perception.usb_power_present != a.perception.usb_power_present,
            Field::BodyTouch => b.perception.body_touch != a.perception.body_touch,
            Field::Tracking => b.perception.tracking != a.perception.tracking,
            Field::AmbientLux => b.perception.ambient != a.perception.ambient,
            Field::Emotion => b.mind.affect.emotion != a.mind.affect.emotion,
            Field::Autonomy => b.mind.autonomy != a.mind.autonomy,
            Field::Intent => b.mind.intent != a.mind.intent,
            Field::Attention => b.mind.attention != a.mind.attention,
            Field::ChirpRequest => b.voice.chirp_request != a.voice.chirp_request,
            Field::TapPending => b.input.tap_pending != a.input.tap_pending,
            Field::RemotePending => match (b.input.remote_pending, a.input.remote_pending) {
                (Some((x0, x1)), Some((y0, y1))) => x0 != y0 || x1 != y1,
                (None, None) => false,
                _ => true,
            },
            Field::Decorator => b.face.decorator != a.face.decorator,
            Field::Bubble => match (b.face.bubble, a.face.bubble) {
                (Some(x), Some(y)) => !(str_eq(x.text, y.text) && x.expires_at == y.expires_at),
                (None, None) => false,
                _ => true,
            },
            Field::BatteryOverlay => b.face.battery_overlay != a.face.battery_overlay,
            Field::Dormancy => b.mind.dormancy != a.mind.dormancy,
            Field::Engagement => b.mind.engagement != a.mind.engagement,
            Field::MouthOpen | Field::HeadPose | Field::HeadPoseActual | Field::AccelG
            | Field::GyroDps | Field::AudioRms => false,
        }
    }
}

/// The two faces carry the same speech bubble (same text, same deadline).
pub open spec fn bubble_same(a: Face, b: Face) -> bool {
    match (a.bubble, b.bubble) {
        (Some(x), Some(y)) => x.text@ == y.text@ && x.expires_at == y.expires_at,
        (None, None) => true,
        _ => false,
    }
}

/// Static metadata for a modifier type.
#[derive(Debug)]
pub struct ModifierMeta {
    /// Stable identifier — typically the impl's type name.
    pub name: &'static str,
    /// One-sentence description of what this modifier does.
    pub description: &'static str,
    /// Phase this modifier runs in. Determines coarse ordering.
    pub phase: Phase,
    /// Intra-phase tiebreaker. Lower priority runs first.
    pub priority: i8,
    /// Fields this modifier reads.
    pub reads: Vec<Field>,
    /// Fields this modifier writes.
    pub writes: Vec<Field>,
}

/// Static metadata for a skill type.
#[derive(Debug)]
pub struct SkillMeta {
    /// Stable identifier.
    pub name: &'static str,
    /// Trigger guidance + action summary.
    pub description: &'static str,
    /// Arbitration priority among overlapping skills. Higher wins.
    pub priority: u8,
    /// Fields this skill is allowed to write.
    pub writes: Vec<Field>,
}

/// Error returned when a [`Director`] registry is at capacity.
#[derive(Copy, Clone, Debug, PartialEq, Eq, Structural)]
pub enum RegistryFull {
    /// Modifier registry is full ([`MODIFIER_CAP`] reached).
    Modifiers,
    /// Skill registry is full ([`SKILL_CAP`] reached).
    Skills,
}

impl RegistryFull {
    /// The error's message.
    pub fn message(&self) -> (r: &'static str)
        ensures
            r@ == match self {
                RegistryFull::Modifiers => "Director modifier registry full (32)"@,
                RegistryFull::Skills => "Director skill registry full (16)"@,
            },
    {
        match self {
            RegistryFull::Modifiers => "Director modifier registry full (32)",
            RegistryFull::Skills => "Director skill registry full (16)",
        }
    }
}

/// Lexicographic order on modifier keys: phase rank, then priority, then
/// registration index.
pub open spec fn key_le(a: (u8, i8, u16), b: (u8, i8, u16)) -> bool {
    a.0 < b.0 || (a.0 == b.0 && (a.1 < b.1 || (a.1 == b.1 && a.2 <= b.2)))
}

/// Skill order: higher priority first, then registration index.
pub open spec fn skill_le(a: (u8, u16), b: (u8, u16)) -> bool {
    a.0 > b.0 || (a.0 == b.0 && a.1 <= b.1)
}

/// The keys are in ascending modifier order.
pub open spec fn keys_sorted(s: Seq<(u8, i8, u16)>) -> bool {
    forall|i: int, j: int| 0 <= i < j < s.len() ==> key_le(#[trigger] s[i], #[trigger] s[j])
}

/// The skill keys are in skill order.
pub open spec fn skill_keys_sorted(s: Seq<(u8, u16)>) -> bool {
    forall|i: int, j: int| 0 <= i < j < s.len() ==> skill_le(#[trigger] s[i], #[trigger] s[j])
}

fn key_le_exec(a: (u8, i8, u16), b: (u8, i8, u16)) -> (r: bool)
    ensures
        r == key_le(a, b),
{
    a.0 < b.0 || (a.0 == b.0 && (a.1 < b.1 || (a.1 == b.1 && a.2 <= b.2)))
}

fn skill_le_exec(a: (u8, u16), b: (u8, u16)) -> (r: bool)
    ensures
        r == skill_le(a, b),
{
    a.0 > b.0 || (a.0 == b.0 && a.1 <= b.1)
}

/// The `dt_ms` stamped on a frame at `now` after a previous frame at
/// `last`: the elapsed milliseconds (zero if the clock went backwards),
/// saturated to `u32::MAX`; zero on the first frame.
pub open spec fn spec_dt_ms(last: Option<Instant>, now: Instant) -> u32 {
    match last {
        None => 0,
        Some(prev) => {
            let d = if now@ >= prev@ { now@ - prev@ } else { 0 };
            if d <= u32::MAX { d as u32 } else { u32::MAX }
        },
    }
}

/// Report of a modifier or skill that changed a catalogued field its
/// metadata does not list among its writes: who, which field, the entity
/// before and after its pass, and the writes it declared.
#[derive(Debug)]
pub struct UndeclaredWrite {
    /// Name from the offender's metadata.
    pub name: &'static str,
    /// First undeclared field that changed, in [`Field::WRITE_CHECKED`] order.
    pub field: Field,
    /// Entity just before the offending pass.
    pub before: Entity,
    /// Entity just after the offending pass.
    pub after: Entity,
    /// The writes the offender declared.
    pub declared: Vec<Field>,
}

/// Where a modifier of priority `p` joins a layer kept in run order
/// (ascending priority, registration order breaking ties): before the first
/// one of higher priority, or at the end when there is none.
pub fn priority_slot(priorities: &[i8], p: i8) -> (r: usize)
    ensures
        r <= priorities@.len(),
        forall|i: int| 0 <= i < r ==> priorities@[i] <= p,
        r < priorities@.len() ==> priorities@[r as int] > p,
{
    let mut k: usize = 0;
    while k < priorities.len()
        invariant
            k <= priorities@.len(),
            forall|i: int| 0 <= i < k ==> priorities@[i] <= p,
        decreases priorities@.len() - k,
    {
        if priorities[k] > p {
            return k;
        }
        k = k + 1;
    }
    k
}

/// Every declared write of a skill lies in the mind or voice group.
pub open spec fn skill_writes_in_lane(writes: Seq<Field>) -> bool {
    forall|i: int| 0 <= i < writes.len() ==>
        (#[trigger] writes[i]).spec_group() == FieldGroup::Mind || writes[i].spec_group() == FieldGroup::Voice
}

/// Whether a skill's declared writes stay in its lane (mind and voice
/// fields only), the condition [`Director::add_skill`] registers under.
pub fn skill_in_lane(meta: &SkillMeta) -> (r: bool)
    ensures
        r == skill_writes_in_lane(meta.writes@),
{
    let mut k: usize = 0;
    while k < meta.writes.len()
        invariant
            k <= meta.writes@.len(),
            skill_writes_in_lane(meta.writes@.take(k as int)),
        decreases meta.writes@.len() - k,
    {
        let g = meta.writes[k].group();
        if !(g == FieldGroup::Mind || g == FieldGroup::Voice) {
            assert(!skill_writes_in_lane(meta.writes@)) by {
                assert(meta.writes@[k as int] == meta.writes[k as int]);
            }
            return false;
        }
        assert(meta.writes@.take(k + 1) =~= meta.writes@.take(k as int).push(meta.writes@[k as int]));
        k = k + 1;
    }
    assert(meta.writes@.take(k as int) =~= meta.writes@);
    true
}

/// One pass of a frame: a modifier's update (`skill` false) or a skill's
/// turn, the registration index of the instance, whether it ran (a skill
/// runs only when it fires), the entity around the pass, and the writes the
/// instance declared.
pub struct Pass {
    /// A skill's turn rather than a modifier's update.
    pub skill: bool,
    /// Registration index of the instance.
    pub index: u16,
    /// The instance ran (always, for a modifier).
    pub ran: bool,
    /// Entity before the pass.
    pub before: Entity,
    /// Entity after the pass.
    pub after: Entity,
    /// Writes the instance declared (after its pass).
    pub declared: Seq<Field>,
}

/// `e` stamped for a frame at `now` after a previous frame at `last`, with
/// frame counter `frame`, its one-frame events cleared.
pub open spec fn spec_stamp(e: Entity, last: Option<Instant>, now: Instant, frame: u64) -> Entity {
    Entity { tick: Tick { now, dt_ms: spec_dt_ms(last, now), frame }, events: Events {}, ..e }
}

/// The pass changed only fields it declared (or did not run).
pub open spec fn pass_clean(p: Pass) -> bool {
    !p.ran || first_undeclared(p.before, p.after, p.declared, 0) is None
}

/// The entity a frame leaves: the last pass's result, or the stamped entity
/// when nothing ran.
pub open spec fn frame_result(start: Entity, t: Seq<Pass>) -> Entity {
    if t.len() == 0 { start } else { t.last().after }
}

/// The passes `t` chain from `start`: each starts where the previous ended.
pub open spec fn passes_chain(start: Entity, t: Seq<Pass>) -> bool {
    &&& t.len() > 0 ==> t[0].before == start
    &&& forall|k: int| 0 <= k < t.len() - 1 ==> (#[trigger] t[k + 1]).before == t[k].after
}

/// Passes chaining from `start` followed by passes chaining from where they
/// ended chain from `start`, and end where the second ones end.
proof fn lemma_chain_append(start: Entity, t1: Seq<Pass>, s: Seq<Pass>)
    requires
        passes_chain(start, t1),
        passes_chain(frame_result(start, t1), s),
    ensures
        passes_chain(start, t1 + s),
        frame_result(start, t1 + s) == frame_result(frame_result(start, t1), s),
{
    let t = t1 + s;
    assert forall|k: int| 0 <= k < t.len() - 1 implies (#[trigger] t[k + 1]).before == t[k].after by {
        if k + 1 < t1.len() {
            assert(t[k + 1] == t1[k + 1] && t[k] == t1[k]);
            assert(t1[k + 1].before == t1[k].after);
        } else if k + 1 == t1.len() {
            assert(t[k + 1] == s[0] && t[k] == t1[k]);
        } else {
            let j = k - t1.len();
            assert(t[k + 1] == s[j + 1] && t[k] == s[j]);
            assert(s[j + 1].before == s[j].after);
        }
    }
    if t1.len() == 0 {
        assert(t =~= s);
    } else {
        assert(t[0] == t1[0]);
    }
    if s.len() > 0 {
        assert(t.last() == s.last());
    } else {
        assert(t =~= t1);
    }
}

/// The orchestrator's registry and frame bookkeeping: it holds the
/// execution keys of registered modifiers and skills, keeps them in run
/// order, and stamps each frame onto the entity.
pub struct Director {
    modifiers: heapless::Vec<(u8, i8, u16), 32>,
    skills: heapless::Vec<(u8, u16), 16>,
    frame: u64,
    last_now: Option<Instant>,
    registered: Ghost<Seq<(u8, i8, u16)>>,
    registered_skills: Ghost<Seq<(u8, u16)>>,
    passes: Ghost<Seq<Pass>>,
    mod_instances: Vec<Box<dyn Modifier>>,
    skill_instances: Vec<Box<dyn Skill>>,
}

impl Director {
    /// Modifier keys in run order.
    pub closed spec fn order(&self) -> Seq<(u8, i8, u16)> {
        modifier_keys(self.modifiers)
    }

    /// Modifier keys in registration order.
    pub closed spec fn registered(&self) -> Seq<(u8, i8, u16)> {
        self.registered@
    }

    /// Skill keys in run order.
    pub closed spec fn skill_order(&self) -> Seq<(u8, u16)> {
        skill_keys(self.skills)
    }

    /// Skill keys in registration order.
    pub closed spec fn registered_skills(&self) -> Seq<(u8, u16)> {
        self.registered_skills@
    }

    /// Frames stamped so far.
    pub closed spec fn frames(&self) -> u64 {
        self.frame
    }

    /// Instant of the previous frame, if any.
    pub closed spec fn last_frame_at(&self) -> Option<Instant> {
        self.last_now
    }

    /// The passes of the last frame run, in order.
    pub closed spec fn last_frame(&self) -> Seq<Pass> {
        self.passes@
    }

    /// The registered modifier instances, by registration index.
    pub closed spec fn instances(&self) -> Seq<Box<dyn Modifier>> {
        self.mod_instances@
    }

    /// The registered skill instances, by registration index.
    pub closed spec fn skill_instances(&self) -> Seq<Box<dyn Skill>> {
        self.skill_instances@
    }

    /// Internal consistency: the keys are well formed and each registration
    /// has its instance.
    pub closed spec fn wf(&self) -> bool {
        &&& self.keys_wf()
        &&& self.mod_instances@.len() == self.registered@.len()
        &&& self.skill_instances@.len() == self.registered_skills@.len()
    }

    /// The keys alone: run orders sorted, permutations of the registrations,
    /// and each registration indexed by its position.
    closed spec fn keys_wf(&self) -> bool {
        &&& keys_sorted(modifier_keys(self.modifiers))
        &&& modifier_keys(self.modifiers).to_multiset() == self.registered@.to_multiset()
        &&& forall|i: int| 0 <= i < self.registered@.len() ==> (#[trigger] self.registered@[i]).2 as int == i
        &&& self.registered@.len() <= MODIFIER_CAP
        &&& skill_keys_sorted(skill_keys(self.skills))
        &&& skill_keys(self.skills).to_multiset() == self.registered_skills@.to_multiset()
        &&& forall|i: int| 0 <= i < self.registered_skills@.len() ==> (#[trigger] self.registered_skills@[i]).1 as int == i
        &&& self.registered_skills@.len() <= SKILL_CAP
    }

    /// Construct an empty director with no modifiers or skills.
    pub fn new() -> (r: Self)
        ensures
            r.wf(),
            r.registered() == Seq::<(u8, i8, u16)>::empty(),
            r.registered_skills() == Seq::<(u8, u16)>::empty(),
            r.frames() == 0,
            r.last_frame_at() is None,
            r.instances() == Seq::<Box<dyn Modifier>>::empty(),
            r.skill_instances() == Seq::<Box<dyn Skill>>::empty(),
    {
        let r = Director {
            modifiers: modifier_keys_new(),
            skills: skill_keys_new(),
            frame: 0,
            last_now: None,
            registered: Ghost(Seq::empty()),
            registered_skills: Ghost(Seq::empty()),
            passes: Ghost(Seq::empty()),
            mod_instances: Vec::new(),
            skill_instances: Vec::new(),
        };
        proof {
            assert(modifier_keys(r.modifiers).to_multiset() =~= r.registered@.to_multiset());
            assert(skill_keys(r.skills).to_multiset() =~= r.registered_skills@.to_multiset());
        }
        r
    }

    /// The director's run order is sorted by (phase, priority, registration)
    /// and holds every registered modifier exactly once; likewise skills run
    /// by descending priority, ties by registration, each exactly once.
    pub proof fn lemma_run_order(&self)
        requires
            self.wf(),
        ensures
            keys_sorted(self.order()),
            self.order().to_multiset() == self.registered().to_multiset(),
            forall|i: int| 0 <= i < self.registered().len() ==> (#[trigger] self.registered()[i]).2 as int == i,
            skill_keys_sorted(self.skill_order()),
            self.skill_order().to_multiset() == self.registered_skills().to_multiset(),
            forall|i: int| 0 <= i < self.registered_skills().len() ==> (#[trigger] self.registered_skills()[i]).1 as int == i,
    {
    }

    /// Insert the key of a modifier with metadata `meta` into the run order.
    fn register_modifier(&mut self, meta: &ModifierMeta) -> (r: Result<u16, RegistryFull>)
        requires
            old(self).keys_wf(),
        ensures
            final(self).keys_wf(),
            final(self).mod_instances@ == old(self).mod_instances@,
            final(self).skill_instances@ == old(self).skill_instances@,
            final(self).frames() == old(self).frames(),
            final(self).last_frame_at() == old(self).last_frame_at(),
            final(self).registered_skills() == old(self).registered_skills(),
            final(self).skill_order() == old(self).skill_order(),
            old(self).registered().len() < MODIFIER_CAP ==> r == Ok::<u16, RegistryFull>(old(self).registered().len() as u16)
                && final(self).registered() == old(self).registered().push((meta.phase.spec_rank(), meta.priority, old(self).registered().len() as u16)),
            old(self).registered().len() >= MODIFIER_CAP ==> r == Err::<u16, RegistryFull>(RegistryFull::Modifiers)
                && final(self).registered() == old(self).registered()
                && final(self).order() == old(self).order(),
    {
        let n = modifier_keys_len(&self.modifiers);
        proof {
            vstd::seq_lib::to_multiset_len(modifier_keys(self.modifiers));
            vstd::seq_lib::to_multiset_len(self.registered@);
        }
        if n >= MODIFIER_CAP {
            return Err(RegistryFull::Modifiers);
        }
        let key: (u8, i8, u16) = (meta.phase.rank(), meta.priority, n as u16);
        let ghost s = modifier_keys(self.modifiers);
        let mut p: usize = 0;
        while p < n && key_le_exec(modifier_keys_get(&self.modifiers, p), key)
            invariant
                n == s.len(),
                s == modifier_keys(self.modifiers),
                p <= n,
                forall|i: int| 0 <= i < p ==> key_le(#[trigger] s[i], key),
            decreases n - p,
        {
            p = p + 1;
        }
        let ok = modifier_keys_insert(&mut self.modifiers, p, key);
        assert(ok);
        proof {
            broadcast use vstd::seq_lib::group_to_multiset_ensures;
            let t = modifier_keys(self.modifiers);
            assert(t == s.insert(p as int, key));
            assert forall|i: int, j: int| 0 <= i < j < t.len() implies key_le(#[trigger] t[i], #[trigger] t[j]) by {
                if i < p && j < p {
                    assert(t[i] == s[i] && t[j] == s[j]);
                } else if i < p && j == p {
                } else if i < p {
                    assert(t[j] == s[j - 1]);
                } else if i == p {
                    assert(t[j] == s[j - 1]);
                    assert(p < n);
                    assert(key_le(key, s[p as int]));
                    if j - 1 > p {
                        assert(key_le(s[p as int], s[j - 1]));
                    }
                } else {
                    assert(t[i] == s[i - 1] && t[j] == s[j - 1]);
                }
            }
            vstd::seq_lib::to_multiset_insert(s, p as int, key);
            vstd::seq_lib::to_multiset_build(self.registered@, key);
            self.registered = Ghost(self.registered@.push(key));
        }
        Ok(n as u16)
    }

    /// Insert the key of a skill with metadata `meta` into the skill order.
    fn register_skill(&mut self, meta: &SkillMeta) -> (r: Result<u16, RegistryFull>)
        requires
            old(self).keys_wf(),
        ensures
            final(self).keys_wf(),
            final(self).mod_instances@ == old(self).mod_instances@,
            final(self).skill_instances@ == old(self).skill_instances@,
            final(self).frames() == old(self).frames(),
            final(self).last_frame_at() == old(self).last_frame_at(),
            final(self).registered() == old(self).registered(),
            final(self).order() == old(self).order(),
            old(self).registered_skills().len() < SKILL_CAP ==> r == Ok::<u16, RegistryFull>(old(self).registered_skills().len() as u16)
                && final(self).registered_skills() == old(self).registered_skills().push((meta.priority, old(self).registered_skills().len() as u16)),
            old(self).registered_skills().len() >= SKILL_CAP ==> r == Err::<u16, RegistryFull>(RegistryFull::Skills)
                && final(self).registered_skills() == old(self).registered_skills()
                && final(self).skill_order() == old(self).skill_order(),
    {
        let n = skill_keys_len(&self.skills);
        proof {
            vstd::seq_lib::to_multiset_len(skill_keys(self.skills));
            vstd::seq_lib::to_multiset_len(self.registered_skills@);
        }
        if n >= SKILL_CAP {
            return Err(RegistryFull::Skills);
        }
        let key: (u8, u16) = (meta.priority, n as u16);
        let ghost s = skill_keys(self.skills);
        let mut p: usize = 0;
        while p < n && skill_le_exec(skill_keys_get(&self.skills, p), key)
            invariant
                n == s.len(),
                s == skill_keys(self.skills),
                p <= n,
                forall|i: int| 0 <= i < p ==> skill_le(#[trigger] s[i], key),
            decreases n - p,
        {
            p = p + 1;
        }
        let ok = skill_keys_insert(&mut self.skills, p, key);
        assert(ok);
        proof {
            broadcast use vstd::seq_lib::group_to_multiset_ensures;
            let t = skill_keys(self.skills);
            assert(t == s.insert(p as int, key));
            assert forall|i: int, j: int| 0 <= i < j < t.len() implies skill_le(#[trigger] t[i], #[trigger] t[j]) by {
                if i < p && j < p {
                    assert(t[i] == s[i] && t[j] == s[j]);
                } else if i < p && j == p {
                } else if i < p {
                    assert(t[j] == s[j - 1]);
                } else if i == p {
                    assert(t[j] == s[j - 1]);
                    assert(p < n);
                    assert(skill_le(key, s[p as int]));
                    if j - 1 > p {
                        assert(skill_le(s[p as int], s[j - 1]));
                    }
                } else {
                    assert(t[i] == s[i - 1] && t[j] == s[j - 1]);
                }
            }
            vstd::seq_lib::to_multiset_insert(s, p as int, key);
            vstd::seq_lib::to_multiset_build(self.registered_skills@, key);
            self.registered_skills = Ghost(self.registered_skills@.push(key));
        }
        Ok(n as u16)
    }

    /// Modifiers of an earlier phase run before those of a later phase:
    /// in the run order, an entry whose rank is that of phase `a` comes
    /// before one whose rank is that of phase `b` whenever `a` precedes `b`
    /// in the frame order (a Cognition modifier before an Affect one).
    pub proof fn lemma_earlier_phase_runs_first(&self, i: int, j: int, a: Phase, b: Phase)
        requires
            self.wf(),
            0 <= i < self.order().len(),
            0 <= j < self.order().len(),
            self.order()[i].0 == a.spec_rank(),
            self.order()[j].0 == b.spec_rank(),
            phase_position(a) < phase_position(b),
        ensures
            i < j,
    {
        lemma_phase_rank_follows_order(a, b);
        if j <= i {
            assert(key_le(self.order()[j], self.order()[i]) || i == j);
        }
    }

    /// Register modifier `m`, keyed by its own metadata: its phase and
    /// priority place it in the run order, registration order breaking ties.
    /// Returns its registration index; `Err(RegistryFull::Modifiers)`, with
    /// nothing registered, when [`MODIFIER_CAP`] modifiers already are.
    pub fn add_modifier(&mut self, m: Box<dyn Modifier>) -> (r: Result<u16, RegistryFull>)
        requires
            old(self).wf(),
        ensures
            final(self).wf(),
            final(self).frames() == old(self).frames(),
            final(self).last_frame_at() == old(self).last_frame_at(),
            final(self).registered_skills() == old(self).registered_skills(),
            final(self).skill_order() == old(self).skill_order(),
            final(self).skill_instances() == old(self).skill_instances(),
            old(self).registered().len() < MODIFIER_CAP ==> {
                let key = final(self).registered().last();
                &&& r == Ok::<u16, RegistryFull>(old(self).registered().len() as u16)
                &&& final(self).registered() == old(self).registered().push(key)
                &&& key.2 == old(self).registered().len()
                &&& m.obeys_modifier_spec() ==> key.0 == m.declared_phase().spec_rank() && key.1 == m.declared_priority()
                &&& final(self).instances() == old(self).instances().push(m)
            },
            old(self).registered().len() >= MODIFIER_CAP ==> {
                &&& r == Err::<u16, RegistryFull>(RegistryFull::Modifiers)
                &&& final(self).registered() == old(self).registered()
                &&& final(self).order() == old(self).order()
                &&& final(self).instances() == old(self).instances()
            },
    {
        let meta = m.meta();
        match self.register_modifier(&meta) {
            Ok(i) => {
                let ghost before = self.mod_instances@;
                let ghost pushed = m;
                self.mod_instances.push(m);
                proof {
                    vstd::seq::axiom_seq_push_len(before, pushed);
                }
                Ok(i)
            },
            Err(e) => Err(e),
        }
    }

    /// Register skill `s`, keyed by its own metadata: higher priority is
    /// visited first, registration order breaking ties. Returns its
    /// registration index; `Err(RegistryFull::Skills)`, with nothing
    /// registered, when [`SKILL_CAP`] skills already are. A skill writes
    /// only mind and voice fields.
    pub fn add_skill(&mut self, s: Box<dyn Skill>) -> (r: Result<u16, RegistryFull>)
        requires
            old(self).wf(),
            s.obeys_skill_spec() ==> skill_writes_in_lane(s.declared_writes()),
        ensures
            final(self).wf(),
            final(self).frames() == old(self).frames(),
            final(self).last_frame_at() == old(self).last_frame_at(),
            final(self).registered() == old(self).registered(),
            final(self).order() == old(self).order(),
            final(self).instances() == old(self).instances(),
            old(self).registered_skills().len() < SKILL_CAP ==> {
                let key = final(self).registered_skills().last();
                &&& r == Ok::<u16, RegistryFull>(old(self).registered_skills().len() as u16)
                &&& final(self).registered_skills() == old(self).registered_skills().push(key)
                &&& key.1 == old(self).registered_skills().len()
                &&& s.obeys_skill_spec() ==> key.0 == s.declared_priority()
                &&& final(self).skill_instances() == old(self).skill_instances().push(s)
            },
            old(self).registered_skills().len() >= SKILL_CAP ==> {
                &&& r == Err::<u16, RegistryFull>(RegistryFull::Skills)
                &&& final(self).registered_skills() == old(self).registered_skills()
                &&& final(self).skill_order() == old(self).skill_order()
                &&& final(self).skill_instances() == old(self).skill_instances()
            },
    {
        let meta = s.meta();
        match self.register_skill(&meta) {
            Ok(i) => {
                let ghost before = self.skill_instances@;
                let ghost pushed = s;
                self.skill_instances.push(s);
                proof {
                    vstd::seq::axiom_seq_push_len(before, pushed);
                }
                Ok(i)
            },
            Err(e) => Err(e),
        }
    }

    /// Registration indices of the modifiers, in run order.
    pub fn modifier_order(&self) -> (r: Vec<u16>)
        requires
            self.wf(),
        ensures
            r@.len() == self.order().len(),
            forall|k: int| 0 <= k < r@.len() ==> r@[k] == (#[trigger] self.order()[k]).2,
    {
        let n = modifier_keys_len(&self.modifiers);
        let mut out: Vec<u16> = Vec::new();
        let mut k: usize = 0;
        while k < n
            invariant
                n == self.order().len(),
                k <= n,
                out@.len() == k,
                forall|q: int| 0 <= q < k ==> out@[q] == (#[trigger] self.order()[q]).2,
            decreases n - k,
        {
            let key = modifier_keys_get(&self.modifiers, k);
            out.push(key.2);
            k = k + 1;
        }
        out
    }

    /// Registration indices of the skills, in run order.
    pub fn skill_run_order(&self) -> (r: Vec<u16>)
        requires
            self.wf(),
        ensures
            r@.len() == self.skill_order().len(),
            forall|k: int| 0 <= k < r@.len() ==> r@[k] == (#[trigger] self.skill_order()[k]).1,
    {
        let n = skill_keys_len(&self.skills);
        let mut out: Vec<u16> = Vec::new();
        let mut k: usize = 0;
        while k < n
            invariant
                n == self.skill_order().len(),
                k <= n,
                out@.len() == k,
                forall|q: int| 0 <= q < k ==> out@[q] == (#[trigger] self.skill_order()[q]).1,
            decreases n - k,
        {
            let key = skill_keys_get(&self.skills, k);
            out.push(key.1);
            k = k + 1;
        }
        out
    }

    /// Stamp a new frame at `now`: bump the frame counter (saturating),
    /// stamp `entity.tick` with `now`, the milliseconds since the previous
    /// frame and the counter, and clear the one-frame events. Nothing else on
    /// the entity changes.
    pub fn begin_frame(&mut self, entity: &mut Entity, now: Instant)
        requires
            old(self).wf(),
        ensures
            final(self).wf(),
            final(self).frames() == if old(self).frames() < u64::MAX { (old(self).frames() + 1) as u64 } else { u64::MAX },
            final(self).last_frame_at() == Some(now),
            final(self).order() == old(self).order(),
            final(self).registered() == old(self).registered(),
            final(self).skill_order() == old(self).skill_order(),
            final(self).registered_skills() == old(self).registered_skills(),
            final(self).instances() == old(self).instances(),
            final(self).skill_instances() == old(self).skill_instances(),
            final(entity).tick == (Tick { now, dt_ms: spec_dt_ms(old(self).last_frame_at(), now), frame: final(self).frames() }),
            final(entity).events == (Events {}),
            final(entity).face == old(entity).face,
            final(entity).perception == old(entity).perception,
            final(entity).voice == old(entity).voice,
            final(entity).mind == old(entity).mind,
            final(entity).input == old(entity).input,
    {
        self.frame = if self.frame < u64::MAX { self.frame + 1 } else { u64::MAX };
        let dt_ms: u32 = match self.last_now {
            None => 0,
            Some(prev) => {
                let d = now.saturating_duration_since(prev);
                if d <= u32::MAX as u64 { d as u32 } else { u32::MAX }
            },
        };
        entity.tick = Tick { now, dt_ms, frame: self.frame };
        entity.events = Events {};
        self.last_now = Some(now);
    }

    /// Each entry of the run order names a registered modifier.
    proof fn lemma_order_entry_registered(&self, k: int)
        requires
            self.wf(),
            0 <= k < self.order().len(),
        ensures
            (self.order()[k].2 as int) < self.registered().len(),
            self.registered()[self.order()[k].2 as int] == self.order()[k],
    {
        broadcast use vstd::seq_lib::group_to_multiset_ensures;
        let x = self.order()[k];
        assert(self.order().contains(x));
        assert(self.registered().to_multiset().count(x) > 0);
        assert(self.registered().contains(x));
        let i = choose|i: int| 0 <= i < self.registered().len() && self.registered()[i] == x;
        assert(self.registered()[i].2 as int == i);
    }

    /// Each entry of the skill run order names a registered skill.
    proof fn lemma_skill_order_entry_registered(&self, k: int)
        requires
            self.wf(),
            0 <= k < self.skill_order().len(),
        ensures
            (self.skill_order()[k].1 as int) < self.registered_skills().len(),
            self.registered_skills()[self.skill_order()[k].1 as int] == self.skill_order()[k],
    {
        broadcast use vstd::seq_lib::group_to_multiset_ensures;
        let x = self.skill_order()[k];
        assert(self.skill_order().contains(x));
        assert(self.registered_skills().to_multiset().count(x) > 0);
        assert(self.registered_skills().contains(x));
        let i = choose|i: int| 0 <= i < self.registered_skills().len() && self.registered_skills()[i] == x;
        assert(self.registered_skills()[i].1 as int == i);
    }

    /// Distinct entries of the run order name distinct registrations.
    proof fn lemma_order_indices_distinct(&self)
        requires
            self.wf(),
        ensures
            forall|a: int, b: int| 0 <= a < self.order().len() && 0 <= b < self.order().len() && a != b
                ==> #[trigger] self.order()[a].2 != #[trigger] self.order()[b].2,
    {
        let reg = self.registered();
        assert(reg.no_duplicates()) by {
            assert forall|i: int, j: int| 0 <= i < reg.len() && 0 <= j < reg.len() && i != j implies reg[i] != reg[j] by {
                assert(reg[i].2 as int == i);
                assert(reg[j].2 as int == j);
            }
        }
        reg.lemma_multiset_has_no_duplicates();
        assert forall|x: (u8, i8, u16)| self.order().to_multiset().contains(x) implies self.order().to_multiset().count(x) == 1 by {
            assert(reg.to_multiset().contains(x));
        }
        self.order().lemma_multiset_has_no_duplicates_conv();
        assert forall|a: int, b: int| 0 <= a < self.order().len() && 0 <= b < self.order().len() && a != b
            implies #[trigger] self.order()[a].2 != #[trigger] self.order()[b].2 by {
            self.lemma_order_entry_registered(a);
            self.lemma_order_entry_registered(b);
        }
    }

    /// Distinct entries of the skill order name distinct registrations.
    proof fn lemma_skill_order_indices_distinct(&self)
        requires
            self.wf(),
        ensures
            forall|a: int, b: int| 0 <= a < self.skill_order().len() && 0 <= b < self.skill_order().len() && a != b
                ==> #[trigger] self.skill_order()[a].1 != #[trigger] self.skill_order()[b].1,
    {
        let reg = self.registered_skills();
        assert(reg.no_duplicates()) by {
            assert forall|i: int, j: int| 0 <= i < reg.len() && 0 <= j < reg.len() && i != j implies reg[i] != reg[j] by {
                assert(reg[i].1 as int == i);
                assert(reg[j].1 as int == j);
            }
        }
        reg.lemma_multiset_has_no_duplicates();
        assert forall|x: (u8, u16)| self.skill_order().to_multiset().contains(x) implies self.skill_order().to_multiset().count(x) == 1 by {
            assert(reg.to_multiset().contains(x));
        }
        self.skill_order().lemma_multiset_has_no_duplicates_conv();
        assert forall|a: int, b: int| 0 <= a < self.skill_order().len() && 0 <= b < self.skill_order().len() && a != b
            implies #[trigger] self.skill_order()[a].1 != #[trigger] self.skill_order()[b].1 by {
            self.lemma_skill_order_entry_registered(a);
            self.lemma_skill_order_entry_registered(b);
        }
    }

    /// First half of a frame: stamp it as [`Director::begin_frame`] does,
    /// then update every registered modifier once, in run order, checking
    /// each pass against the writes the instance declared. The first
    /// violation stops there and is returned as `Err`. The passes made are
    /// recorded in [`Director::last_frame`].
    pub fn run_modifiers(&mut self, entity: &mut Entity, now: Instant) -> (r: Result<(), UndeclaredWrite>)
        requires
            old(self).wf(),
        ensures
            final(self).wf(),
            final(self).frames() == if old(self).frames() < u64::MAX { (old(self).frames() + 1) as u64 } else { u64::MAX },
            final(self).last_frame_at() == Some(now),
            final(self).order() == old(self).order(),
            final(self).registered() == old(self).registered(),
            final(self).skill_order() == old(self).skill_order(),
            final(self).registered_skills() == old(self).registered_skills(),
            final(self).instances().len() == old(self).instances().len(),
            final(self).skill_instances() == old(self).skill_instances(),
            ({
                let n = old(self).order().len();
                let t = final(self).last_frame();
                let start = spec_stamp(*old(entity), old(self).last_frame_at(), now, final(self).frames());
                &&& t.len() <= n
                &&& passes_chain(start, t)
                &&& *final(entity) == frame_result(start, t)
                &&& forall|k: int| 0 <= k < t.len() ==> {
                    let idx = (#[trigger] t[k]).index as int;
                    &&& !t[k].skill && t[k].ran
                    &&& t[k].index == old(self).order()[k].2
                    &&& old(self).instances()[idx].obeys_modifier_spec() ==> {
                        &&& old(self).instances()[idx].update_outcome(t[k].before, t[k].after)
                        &&& t[k].declared == final(self).instances()[idx].declared_writes()
                    }
                }
                &&& forall|k: int| 0 <= k < t.len() - 1 ==> pass_clean(#[trigger] t[k])
                &&& match r {
                    Ok(()) => t.len() == n && (t.len() > 0 ==> pass_clean(t.last())),
                    Err(w) => {
                        &&& t.len() > 0
                        &&& !pass_clean(t.last())
                        &&& w.before == t.last().before
                        &&& w.after == t.last().after
                        &&& w.declared@ == t.last().declared
                        &&& first_undeclared(w.before, w.after, w.declared@, 0) == Some(w.field)
                    },
                }
            }),
    {
        let ghost e0 = *entity;
        let ghost last0 = self.last_frame_at();
        let ghost mods0 = self.mod_instances@;
        let ghost skills0 = self.skill_instances@;
        self.begin_frame(entity, now);
        let ghost start = *entity;
        assert(start == spec_stamp(e0, last0, now, self.frames()));
        proof {
            self.lemma_order_indices_distinct();
            self.lemma_skill_order_indices_distinct();
        }
        let ghost mut trace: Seq<Pass> = Seq::empty();
        let order = self.modifier_order();
        let n = order.len();
        let mut k: usize = 0;
        while k < n
            invariant
                self.wf(),
                n == order@.len(),
                order@.len() == self.order().len(),
                forall|q: int| 0 <= q < order@.len() ==> order@[q] == (#[trigger] self.order()[q]).2,
                forall|a: int, b: int| 0 <= a < self.order().len() && 0 <= b < self.order().len() && a != b
                    ==> #[trigger] self.order()[a].2 != #[trigger] self.order()[b].2,
                forall|a: int, b: int| 0 <= a < self.skill_order().len() && 0 <= b < self.skill_order().len() && a != b
                    ==> #[trigger] self.skill_order()[a].1 != #[trigger] self.skill_order()[b].1,
                self.mod_instances@.len() == self.registered().len(),
                mods0.len() == self.mod_instances@.len(),
                self.skill_instances@ == skills0,
                skills0.len() == self.registered_skills().len(),
                k <= n,
                self.frames() == if old(self).frames() < u64::MAX { (old(self).frames() + 1) as u64 } else { u64::MAX },
                self.last_frame_at() == Some(now),
                self.order() == old(self).order(),
                self.registered() == old(self).registered(),
                self.skill_order() == old(self).skill_order(),
                self.registered_skills() == old(self).registered_skills(),
                start == spec_stamp(e0, last0, now, self.frames()),
                e0 == *old(entity),
                last0 == old(self).last_frame_at(),
                mods0 == old(self).instances(),
                skills0 == old(self).skill_instances(),
                trace.len() == k,
                passes_chain(start, trace),
                *entity == frame_result(start, trace),
                forall|q: int| k <= q < n ==> self.mod_instances@[(#[trigger] self.order()[q]).2 as int] == mods0[self.order()[q].2 as int],
                forall|q: int| 0 <= q < k ==> {
                    let idx = (#[trigger] trace[q]).index as int;
                    &&& !trace[q].skill && trace[q].ran
                    &&& trace[q].index == self.order()[q].2
                    &&& mods0[idx].obeys_modifier_spec() ==> {
                        &&& mods0[idx].update_outcome(trace[q].before, trace[q].after)
                        &&& trace[q].declared == self.mod_instances@[idx].declared_writes()
                    }
                },
                forall|q: int| 0 <= q < trace.len() ==> pass_clean(#[trigger] trace[q]),
            decreases n - k,
        {
            proof {
                self.lemma_order_entry_registered(k as int);
            }
            let id = order[k] as usize;
            let before = *entity;
            let ghost pre = self.mod_instances@;
            self.mod_instances[id].update(entity);
            let meta = self.mod_instances[id].meta();
            let ghost p = Pass { skill: false, index: id as u16, ran: true, before, after: *entity, declared: meta.writes@ };
            proof {
                let ghost prev = trace;
                trace = trace.push(p);
                assert(forall|i: int| 0 <= i < pre.len() && i != id ==> self.mod_instances@[i] == pre[i]);
                assert forall|q: int| k < q < n implies self.mod_instances@[(#[trigger] self.order()[q]).2 as int] == mods0[self.order()[q].2 as int] by {
                    self.lemma_order_entry_registered(q);
                    assert(self.order()[q].2 != self.order()[k as int].2);
                }
                assert(pre[id as int] == mods0[id as int]);
                assert forall|q: int| 0 <= q < k + 1 implies {
                    let idx = (#[trigger] trace[q]).index as int;
                    &&& !trace[q].skill && trace[q].ran
                    &&& trace[q].index == self.order()[q].2
                    &&& mods0[idx].obeys_modifier_spec() ==> {
                        &&& mods0[idx].update_outcome(trace[q].before, trace[q].after)
                        &&& trace[q].declared == self.mod_instances@[idx].declared_writes()
                    }
                } by {
                    self.lemma_order_entry_registered(q);
                    if q < k {
                        assert(trace[q] == prev[q]);
                        assert(self.order()[q].2 != self.order()[k as int].2);
                    }
                }
                assert forall|q: int| 0 <= q < trace.len() - 1 implies (#[trigger] trace[q + 1]).before == trace[q].after by {
                    if q + 1 < k {
                        assert(trace[q + 1] == prev[q + 1]);
                    }
                }
            }
            match undeclared_write(&before, entity, meta.writes.as_slice()) {
                Some(field) => {
                    self.passes = Ghost(trace);
                    return Err(UndeclaredWrite { name: meta.name, field, before, after: *entity, declared: meta.writes });
                },
                None => {},
            }
            k = k + 1;
        }
        self.passes = Ghost(trace);
        Ok(())
    }

    /// Second half of a frame: visit every registered skill in skill order
    /// and invoke it when its `should_fire` says so, checking each run
    /// against the writes the skill declared. The first violation stops
    /// there and is returned as `Err`. The passes made are appended to
    /// [`Director::last_frame`].
    pub fn run_skills(&mut self, entity: &mut Entity) -> (r: Result<(), UndeclaredWrite>)
        requires
            old(self).wf(),
        ensures
            final(self).wf(),
            final(self).frames() == old(self).frames(),
            final(self).last_frame_at() == old(self).last_frame_at(),
            final(self).order() == old(self).order(),
            final(self).registered() == old(self).registered(),
            final(self).skill_order() == old(self).skill_order(),
            final(self).registered_skills() == old(self).registered_skills(),
            final(self).instances() == old(self).instances(),
            final(self).skill_instances().len() == old(self).skill_instances().len(),
            ({
                let m = old(self).skill_order().len();
                let t0 = old(self).last_frame();
                let t = final(self).last_frame();
                let s = t.subrange(t0.len() as int, t.len() as int);
                &&& t0.len() <= t.len()
                &&& t.subrange(0, t0.len() as int) == t0
                &&& s.len() <= m
                &&& passes_chain(*old(entity), s)
                &&& *final(entity) == frame_result(*old(entity), s)
                &&& forall|k: int| 0 <= k < s.len() ==> {
                    let idx = (#[trigger] s[k]).index as int;
                    &&& s[k].skill
                    &&& s[k].index == old(self).skill_order()[k].1
                    &&& old(self).skill_instances()[idx].obeys_skill_spec() ==> {
                        &&& s[k].ran == old(self).skill_instances()[idx].fires(s[k].before)
                        &&& s[k].ran ==> old(self).skill_instances()[idx].invoke_outcome(s[k].before, s[k].after)
                            && s[k].declared == final(self).skill_instances()[idx].declared_writes()
                    }
                    &&& !s[k].ran ==> s[k].after == s[k].before
                }
                &&& forall|k: int| 0 <= k < s.len() - 1 ==> pass_clean(#[trigger] s[k])
                &&& match r {
                    Ok(()) => s.len() == m && (s.len() > 0 ==> pass_clean(s.last())),
                    Err(w) => {
                        &&& s.len() > 0
                        &&& !pass_clean(s.last())
                        &&& w.before == s.last().before
                        &&& w.after == s.last().after
                        &&& w.declared@ == s.last().declared
                        &&& first_undeclared(w.before, w.after, w.declared@, 0) == Some(w.field)
                    },
                }
            }),
    {
        let ghost start = *entity;
        let ghost t0 = self.passes@;
        let ghost skills0 = self.skill_instances@;
        let ghost mods1 = self.mod_instances@;
        proof {
            self.lemma_skill_order_indices_distinct();
        }
        let ghost mut trace: Seq<Pass> = Seq::empty();
        let sorder = self.skill_run_order();
        let m = sorder.len();
        let mut j: usize = 0;
        while j < m
            invariant
                self.wf(),
                m == sorder@.len(),
                sorder@.len() == self.skill_order().len(),
                forall|q: int| 0 <= q < sorder@.len() ==> sorder@[q] == (#[trigger] self.skill_order()[q]).1,
                forall|a: int, b: int| 0 <= a < self.skill_order().len() && 0 <= b < self.skill_order().len() && a != b
                    ==> #[trigger] self.skill_order()[a].1 != #[trigger] self.skill_order()[b].1,
                self.skill_instances@.len() == self.registered_skills().len(),
                skills0.len() == self.skill_instances@.len(),
                self.mod_instances@ == mods1,
                mods1 == old(self).instances(),
                skills0 == old(self).skill_instances(),
                start == *old(entity),
                t0 == old(self).last_frame(),
                self.passes@ == t0,
                j <= m,
                self.frames() == old(self).frames(),
                self.last_frame_at() == old(self).last_frame_at(),
                self.order() == old(self).order(),
                self.registered() == old(self).registered(),
                self.skill_order() == old(self).skill_order(),
                self.registered_skills() == old(self).registered_skills(),
                trace.len() == j,
                passes_chain(start, trace),
                *entity == frame_result(start, trace),
                forall|q: int| j <= q < m ==> self.skill_instances@[(#[trigger] self.skill_order()[q]).1 as int] == skills0[self.skill_order()[q].1 as int],
                forall|q: int| 0 <= q < j ==> {
                    let idx = (#[trigger] trace[q]).index as int;
                    &&& trace[q].skill
                    &&& trace[q].index == self.skill_order()[q].1
                    &&& skills0[idx].obeys_skill_spec() ==> {
                        &&& trace[q].ran == skills0[idx].fires(trace[q].before)
                        &&& trace[q].ran ==> skills0[idx].invoke_outcome(trace[q].before, trace[q].after)
                            && trace[q].declared == self.skill_instances@[idx].declared_writes()
                    }
                    &&& !trace[q].ran ==> trace[q].after == trace[q].before
                },
                forall|q: int| 0 <= q < trace.len() ==> pass_clean(#[trigger] trace[q]),
            decreases m - j,
        {
            proof {
                self.lemma_skill_order_entry_registered(j as int);
            }
            let id = sorder[j] as usize;
            let before = *entity;
            let ghost spre = self.skill_instances@;
            let ghost prev = trace;
            let fire = self.skill_instances[id].should_fire(entity);
            if fire {
                let _status = self.skill_instances[id].invoke(entity);
                let meta = self.skill_instances[id].meta();
                let ghost p = Pass { skill: true, index: id as u16, ran: true, before, after: *entity, declared: meta.writes@ };
                proof {
                    trace = trace.push(p);
                    assert(forall|i: int| 0 <= i < spre.len() && i != id ==> self.skill_instances@[i] == spre[i]);
                    assert forall|q: int| j < q < m implies self.skill_instances@[(#[trigger] self.skill_order()[q]).1 as int] == skills0[self.skill_order()[q].1 as int] by {
                        self.lemma_skill_order_entry_registered(q);
                        assert(self.skill_order()[q].1 != self.skill_order()[j as int].1);
                    }
                    assert(spre[id as int] == skills0[id as int]);
                    assert forall|q: int| 0 <= q < j + 1 implies {
                        let idx = (#[trigger] trace[q]).index as int;
                        &&& trace[q].skill
                        &&& trace[q].index == self.skill_order()[q].1
                        &&& skills0[idx].obeys_skill_spec() ==> {
                            &&& trace[q].ran == skills0[idx].fires(trace[q].before)
                            &&& trace[q].ran ==> skills0[idx].invoke_outcome(trace[q].before, trace[q].after)
                                && trace[q].declared == self.skill_instances@[idx].declared_writes()
                        }
                        &&& !trace[q].ran ==> trace[q].after == trace[q].before
                    } by {
                        self.lemma_skill_order_entry_registered(q);
                        if q < j {
                            assert(trace[q] == prev[q]);
                            assert(self.skill_order()[q].1 != self.skill_order()[j as int].1);
                        }
                    }
                    assert forall|q: int| 0 <= q < trace.len() - 1 implies (#[trigger] trace[q + 1]).before == trace[q].after by {
                        if q + 1 < j {
                            assert(trace[q + 1] == prev[q + 1]);
                        }
                    }
                }
                match undeclared_write(&before, entity, meta.writes.as_slice()) {
                    Some(field) => {
                        proof {
                            assert((t0 + trace).subrange(t0.len() as int, (t0 + trace).len() as int) =~= trace);
                            assert((t0 + trace).subrange(0, t0.len() as int) =~= t0);
                        }
                        self.passes = Ghost(t0 + trace);
                        return Err(UndeclaredWrite { name: meta.name, field, before, after: *entity, declared: meta.writes });
                    },
                    None => {},
                }
            } else {
                let ghost p = Pass { skill: true, index: id as u16, ran: false, before, after: before, declared: Seq::empty() };
                proof {
                    trace = trace.push(p);
                    assert(spre[id as int] == skills0[id as int]);
                    assert forall|q: int| 0 <= q < j + 1 implies {
                        let idx = (#[trigger] trace[q]).index as int;
                        &&& trace[q].skill
                        &&& trace[q].index == self.skill_order()[q].1
                        &&& skills0[idx].obeys_skill_spec() ==> {
                            &&& trace[q].ran == skills0[idx].fires(trace[q].before)
                            &&& trace[q].ran ==> skills0[idx].invoke_outcome(trace[q].before, trace[q].after)
                                && trace[q].declared == self.skill_instances@[idx].declared_writes()
                        }
                        &&& !trace[q].ran ==> trace[q].after == trace[q].before
                    } by {
                        self.lemma_skill_order_entry_registered(q);
                        if q < j {
                            assert(trace[q] == prev[q]);
                            assert(self.skill_order()[q].1 != self.skill_order()[j as int].1);
                        }
                    }
                    assert forall|q: int| 0 <= q < trace.len() - 1 implies (#[trigger] trace[q + 1]).before == trace[q].after by {
                        if q + 1 < j {
                            assert(trace[q + 1] == prev[q + 1]);
                        }
                    }
                }
            }
            j = j + 1;
        }
        proof {
            assert((t0 + trace).subrange(t0.len() as int, (t0 + trace).len() as int) =~= trace);
            assert((t0 + trace).subrange(0, t0.len() as int) =~= t0);
        }
        self.passes = Ghost(t0 + trace);
        Ok(())
    }

    /// Tick the entity one frame: [`Director::run_modifiers`], then, when
    /// that kept to the declared writes, [`Director::run_skills`]. The frame
    /// is stamped as by [`Director::begin_frame`]; then every registered
    /// modifier is updated once, in run order, and every registered skill is
    /// visited in skill order and invoked when its `should_fire` says so.
    /// After each pass the entity is checked against the writes the
    /// instance declared. A violation is reported, not raised as a panic:
    /// the first one stops the frame right after the offending pass and is
    /// returned as `Err`, and the caller decides whether to stop. Frames in
    /// which every pass keeps to its declared writes return `Ok`. The passes
    /// made are recorded in [`Director::last_frame`].
    ///
    /// For an instance that keeps the contracts of its trait
    /// (`obeys_modifier_spec`, `obeys_skill_spec`), each pass is its
    /// declared outcome; for another one, only the order, the chaining and
    /// the write check are stated.
    #[verifier::rlimit(60)]
    pub fn run(&mut self, entity: &mut Entity, now: Instant) -> (r: Result<(), UndeclaredWrite>)
        requires
            old(self).wf(),
        ensures
            final(self).wf(),
            final(self).frames() == if old(self).frames() < u64::MAX { (old(self).frames() + 1) as u64 } else { u64::MAX },
            final(self).last_frame_at() == Some(now),
            final(self).order() == old(self).order(),
            final(self).registered() == old(self).registered(),
            final(self).skill_order() == old(self).skill_order(),
            final(self).registered_skills() == old(self).registered_skills(),
            final(self).instances().len() == old(self).instances().len(),
            final(self).skill_instances().len() == old(self).skill_instances().len(),
            ({
                let n = old(self).order().len();
                let m = old(self).skill_order().len();
                let t = final(self).last_frame();
                let start = spec_stamp(*old(entity), old(self).last_frame_at(), now, final(self).frames());
                &&& t.len() <= n + m
                &&& passes_chain(start, t)
                &&& *final(entity) == frame_result(start, t)
                &&& forall|k: int| 0 <= k < t.len() && k < n ==> {
                    let idx = (#[trigger] t[k]).index as int;
                    &&& !t[k].skill && t[k].ran
                    &&& t[k].index == old(self).order()[k].2
                    &&& old(self).instances()[idx].obeys_modifier_spec() ==> {
                        &&& old(self).instances()[idx].update_outcome(t[k].before, t[k].after)
                        &&& t[k].declared == final(self).instances()[idx].declared_writes()
                    }
                }
                &&& forall|k: int| n <= k < t.len() ==> {
                    let idx = (#[trigger] t[k]).index as int;
                    &&& t[k].skill
                    &&& t[k].index == old(self).skill_order()[k - n].1
                    &&& old(self).skill_instances()[idx].obeys_skill_spec() ==> {
                        &&& t[k].ran == old(self).skill_instances()[idx].fires(t[k].before)
                        &&& t[k].ran ==> old(self).skill_instances()[idx].invoke_outcome(t[k].before, t[k].after)
                            && t[k].declared == final(self).skill_instances()[idx].declared_writes()
                    }
                    &&& !t[k].ran ==> t[k].after == t[k].before
                }
                &&& forall|k: int| 0 <= k < t.len() - 1 ==> pass_clean(#[trigger] t[k])
                &&& match r {
                    Ok(()) => t.len() == n + m && (t.len() > 0 ==> pass_clean(t.last())),
                    Err(w) => {
                        &&& t.len() > 0
                        &&& !pass_clean(t.last())
                        &&& w.before == t.last().before
                        &&& w.after == t.last().after
                        &&& w.declared@ == t.last().declared
                        &&& first_undeclared(w.before, w.after, w.declared@, 0) == Some(w.field)
                    },
                }
            }),
    {
        let ghost start = spec_stamp(*entity, self.last_frame_at(), now,
            if self.frames() < u64::MAX { (self.frames() + 1) as u64 } else { u64::MAX });
        match self.run_modifiers(entity, now) {
            Err(w) => {
                return Err(w);
            },
            Ok(()) => {},
        }
        let ghost t1 = self.passes@;
        let ghost e1 = *entity;
        let r = self.run_skills(entity);
        proof {
            let t = self.passes@;
            let s = t.subrange(t1.len() as int, t.len() as int);
            assert(t =~= t1 + s) by {
                assert(t.subrange(0, t1.len() as int) == t1);
            }
            lemma_chain_append(start, t1, s);
            assert(e1 == frame_result(start, t1));
            assert forall|k: int| t1.len() <= k < t.len() implies #[trigger] t[k] == s[k - t1.len()] by {}
            assert forall|k: int| 0 <= k < t1.len() implies #[trigger] t[k] == t1[k] by {}
        }
        r
    }

    /// Number of registered modifiers.
    pub fn modifier_count(&self) -> (r: usize)
        requires
            self.wf(),
        ensures
            r == self.registered().len(),
    {
        proof {
            vstd::seq_lib::to_multiset_len(modifier_keys(self.modifiers));
            vstd::seq_lib::to_multiset_len(self.registered@);
        }
        modifier_keys_len(&self.modifiers)
    }

    /// Number of registered skills.
    pub fn skill_count(&self) -> (r: usize)
        requires
            self.wf(),
        ensures
            r == self.registered_skills().len(),
    {
        proof {
            vstd::seq_lib::to_multiset_len(skill_keys(self.skills));
            vstd::seq_lib::to_multiset_len(self.registered_skills@);
        }
        skill_keys_len(&self.skills)
    }
}

impl Default for Director {
    /// An empty director, as [`Director::new`] gives.
    fn default() -> (r: Self)
        ensures
            r.wf(),
            r.registered() == Seq::<(u8, i8, u16)>::empty(),
            r.registered_skills() == Seq::<(u8, u16)>::empty(),
            r.frames() == 0,
            r.last_frame_at() is None,
    {
        Director::new()
    }
}

/// The first field, in [`Field::WRITE_CHECKED`] order from position `i`, whose value
/// differs between `before` and `after` though `declared` does not list it.
pub open spec fn first_undeclared(before: Entity, after: Entity, declared: Seq<Field>, i: int) -> Option<Field>
    decreases 39 - i,
{
    if i < 0 || i >= 39 {
        None
    } else {
        let f = Field::WRITE_CHECKED@[i];
        if f.spec_changed(before, after) && !declared.contains(f) {
            Some(f)
        } else {
            first_undeclared(before, after, declared, i + 1)
        }
    }
}

fn field_listed(declared: &[Field], f: Field) -> (r: bool)
    ensures
        r == declared@.contains(f),
{
    let mut k: usize = 0;
    while k < declared.len()
        invariant
            k <= declared@.len(),
            forall|j: int| 0 <= j < k ==> declared@[j] != f,
        decreases declared@.len() - k,
    {
        if declared[k] == f {
            return true;
        }
        k = k + 1;
    }
    false
}

/// The write check behind the frame loop: the first catalogued field that a
/// modifier or skill changed between `before` and `after` without declaring
/// it in `declared`, or `None` when every change was declared.
pub fn undeclared_write(before: &Entity, after: &Entity, declared: &[Field]) -> (r: Option<Field>)
    ensures
        r == first_undeclared(*before, *after, declared@, 0),
{
    let mut i: usize = 0;
    while i < 39
        invariant
            i <= 39,
            first_undeclared(*before, *after, declared@, 0) == first_undeclared(*before, *after, declared@, i as int),
        decreases 39 - i,
    {
        let f: Field = Field::WRITE_CHECKED[i];
        if f.changed(before, after) && !field_listed(declared, f) {
            return Some(f);
        }
        i = i + 1;
    }
    None
}

/// When the write check finds nothing, every catalogued field that changed was
/// declared.
pub proof fn lemma_no_undeclared_write(before: Entity, after: Entity, declared: Seq<Field>, i: int)
    requires
        0 <= i,
        first_undeclared(before, after, declared, i) is None,
    ensures
        forall|k: int| i <= k < 39 && (#[trigger] Field::WRITE_CHECKED@[k]).spec_changed(before, after) ==> declared.contains(Field::WRITE_CHECKED@[k]),
    decreases 39 - i,
{
    if i < 39 {
        lemma_no_undeclared_write(before, after, declared, i + 1);
    }
}

} // verus!
