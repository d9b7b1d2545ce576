//! The decision behind waking on voice: sustained sound above the wake
//! threshold flips the emotion to Happy (unless another input holds it) and
//! requests the wake chirp.
//!
//! The audio level is a floating-point reading; the caller compares it with
//! the threshold and hands in the verdict for each tick (`None` when there
//! is no reading).
use vstd::prelude::*;
use crate::clock::after;
use crate::director::{Field, ModifierMeta, Phase};
use crate::emotion::Emotion;
use crate::entity::Entity;
use crate::mind::{Affect, Autonomy, Mind, OverrideSource};
use crate::voice::{ChirpKind, Voice};

verus! {

/// Consecutive loud ticks needed to wake.
pub const WAKE_SUSTAIN_TICKS: u8 = 10;
/// How long the wake pins Happy, in ms.
pub const WAKE_HOLD_MS: u64 = 5_000;

/// Counts sustained loud ticks and wakes the entity.
#[derive(Debug, Clone, Copy)]
pub struct VoiceWake {
    /// Consecutive loud ticks needed to wake.
    pub sustain_ticks: u8,
    /// Run of consecutive loud ticks, saturating at `u8::MAX`.
    pub consecutive_loud: u8,
}

impl VoiceWake {
    /// A counter needing `sustain_ticks` loud ticks, at zero.
    pub fn with_sustain(sustain_ticks: u8) -> (r: Self)
        ensures
            r == (Self { sustain_ticks, consecutive_loud: 0 }),
    {
        Self { sustain_ticks, consecutive_loud: 0 }
    }

    /// Metadata of the modifier this decision drives.
    pub fn meta(&self) -> (r: ModifierMeta)
        ensures
            r.name@ == "EmotionFromVoice"@,
            r.description@ == "Sustained perception.audio_rms above threshold flips emotion to Happy \
                          (wake from Sleepy). Sets voice.chirp_request = Wake on the rising edge."@,
            r.phase == Phase::Affect,
            r.priority == -70,
            r.reads@ == seq![Field::AudioRms, Field::Autonomy],
            r.writes@ == seq![Field::Emotion, Field::Autonomy, Field::ChirpRequest],
    {
        ModifierMeta {
            name: "EmotionFromVoice",
            description: "Sustained perception.audio_rms above threshold flips emotion to Happy \
                          (wake from Sleepy). Sets voice.chirp_request = Wake on the rising edge.",
            phase: Phase::Affect,
            priority: -70,
            reads: vec![Field::AudioRms, Field::Autonomy],
            writes: vec![Field::Emotion, Field::Autonomy, Field::ChirpRequest],
        }
    }

    /// One tick: `loud` is `None` without a reading, otherwise whether the
    /// reading is above the threshold. After `sustain_ticks` loud ticks in a
    /// row, and unless another input holds the emotion, the entity turns
    /// Happy for [`WAKE_HOLD_MS`], the wake chirp is requested and the run
    /// restarts.
    pub fn observe(&mut self, entity: &mut Entity, loud: Option<bool>)
        ensures
            final(self).sustain_ticks == old(self).sustain_ticks,
            ({
                let e = *old(entity);
                let now = e.tick.now;
                let run: u8 = (if old(self).consecutive_loud < u8::MAX { old(self).consecutive_loud + 1 } else { u8::MAX as int }) as u8;
                let held = e.mind.autonomy.manual_until matches Some(until) && now@ < until@;
                if loud != Some(true) {
                    final(self).consecutive_loud == 0 && *final(entity) == e
                } else if run < old(self).sustain_ticks || held {
                    final(self).consecutive_loud == run && *final(entity) == e
                } else {
                    &&& final(self).consecutive_loud == 0
                    &&& *final(entity) == (Entity {
                        mind: Mind {
                            affect: Affect { emotion: Emotion::Happy },
                            autonomy: Autonomy { manual_until: Some(after(now, WAKE_HOLD_MS)), source: Some(OverrideSource::Voice) },
                            ..e.mind
                        },
                        voice: Voice { chirp_request: Some(ChirpKind::Wake), ..e.voice },
                        ..e
                    })
                }
            }),
    {
        let now = entity.tick.now;
        match loud {
            Some(true) => {},
            _ => {
                self.consecutive_loud = 0;
                return;
            },
        }
        self.consecutive_loud = if self.consecutive_loud < u8::MAX { self.consecutive_loud + 1 } else { u8::MAX };
        if self.consecutive_loud < self.sustain_ticks {
            return;
        }
        if let Some(until) = entity.mind.autonomy.manual_until {
            if now.as_millis() < until.as_millis() {
                return;
            }
        }
        entity.mind.affect.emotion = Emotion::Happy;
        entity.mind.autonomy.manual_until = Some(now.plus(WAKE_HOLD_MS));
        entity.mind.autonomy.source = Some(OverrideSource::Voice);
        entity.voice.chirp_request = Some(ChirpKind::Wake);
        self.consecutive_loud = 0;
    }
}

} // verus!
