//! The avatar and LED channels of dance playback: what a sampled keyframe
//! state writes onto the entity, which overrides the dance therefore holds,
//! and how they are handed back when the script ends. The head-motion
//! channel is a floating-point pose and is driven by the motion layer.
use vstd::prelude::*;
use crate::clock::{after, lemma_instant_add_view, lemma_instant_at_view, lemma_instant_view_ext, Instant};
use crate::dance::ChannelSample;
use crate::decorator::{held, DecoratorState};
use crate::entity::Entity;
use crate::face::Face;
use crate::mind::{Autonomy, OverrideSource};

verus! {

/// How long each sampled emotion or decorator pins the avatar, in ms. The
/// player refreshes it every tick a channel stays set, so it lapses shortly
/// after the script stops driving that channel.
pub const DANCE_AUTONOMY_HOLD_MS: u64 = 200;

/// Which avatar and LED channels the running dance currently holds.
#[derive(Debug, Default, Clone, Copy, PartialEq, Eq, Structural)]
pub struct DanceChannels {
    /// The dance set the emotion (and pinned autonomy as a remote override).
    pub held_emotion: bool,
    /// The dance set the decorator.
    pub held_decorator: bool,
    /// The dance set the LED override.
    pub held_led: bool,
}

impl DanceChannels {
    /// No channel held.
    pub fn new() -> (r: Self)
        ensures
            !r.held_emotion && !r.held_decorator && !r.held_led,
    {
        DanceChannels { held_emotion: false, held_decorator: false, held_led: false }
    }

    /// Write one sample's avatar and LED channels at `now`. A sampled
    /// emotion is set and pinned for [`DANCE_AUTONOMY_HOLD_MS`] as a remote
    /// override; a sampled decorator is held for the same time; a sampled
    /// colour becomes the LED override. When the script stops giving a
    /// colour, an override the dance set is cleared. Nothing else changes.
    pub fn apply(&mut self, entity: &mut Entity, led_override: &mut Option<[u8; 3]>, sample: &ChannelSample, now: Instant)
        ensures
            match sample.emotion {
                Some(e) => {
                    &&& final(entity).mind.affect.emotion == e
                    &&& final(entity).mind.autonomy == (Autonomy {
                        manual_until: Some(after(now, DANCE_AUTONOMY_HOLD_MS)),
                        source: Some(OverrideSource::Remote),
                    })
                    &&& final(self).held_emotion
                },
                None => {
                    &&& final(entity).mind.affect == old(entity).mind.affect
                    &&& final(entity).mind.autonomy == old(entity).mind.autonomy
                    &&& final(self).held_emotion == old(self).held_emotion
                },
            },
            match sample.decorator {
                Some(d) => final(entity).face.decorator == Some(held(d, now, DANCE_AUTONOMY_HOLD_MS)) && final(self).held_decorator,
                None => final(entity).face.decorator == old(entity).face.decorator
                    && final(self).held_decorator == old(self).held_decorator,
            },
            match sample.led {
                Some(c) => *final(led_override) == Some(c) && final(self).held_led,
                None => if old(self).held_led && *old(led_override) is Some {
                    *final(led_override) is None && !final(self).held_led
                } else {
                    *final(led_override) == *old(led_override) && final(self).held_led == old(self).held_led
                },
            },
            final(entity).face == (Face { decorator: final(entity).face.decorator, ..old(entity).face }),
            final(entity).mind.intent == old(entity).mind.intent,
            final(entity).mind.attention == old(entity).mind.attention,
            final(entity).mind.memory == old(entity).mind.memory,
            final(entity).mind.dormancy == old(entity).mind.dormancy,
            final(entity).mind.engagement == old(entity).mind.engagement,
            final(entity).perception == old(entity).perception,
            final(entity).voice == old(entity).voice,
            final(entity).input == old(entity).input,
            final(entity).events == old(entity).events,
            final(entity).tick == old(entity).tick,
    {
        proof {
            broadcast use lemma_instant_add_view, lemma_instant_at_view, lemma_instant_view_ext;
        }
        if let Some(emotion) = sample.emotion {
            entity.mind.affect.emotion = emotion;
            let until = now + DANCE_AUTONOMY_HOLD_MS;
            assert(until@ == after(now, DANCE_AUTONOMY_HOLD_MS)@);
            entity.mind.autonomy.manual_until = Some(until);
            entity.mind.autonomy.source = Some(OverrideSource::Remote);
            self.held_emotion = true;
        }
        if let Some(kind) = sample.decorator {
            entity.face.decorator = Some(DecoratorState::hold_saturating(kind, now, DANCE_AUTONOMY_HOLD_MS));
            self.held_decorator = true;
        }
        match sample.led {
            Some(rgb) => {
                *led_override = Some(rgb);
                self.held_led = true;
            },
            None => {
                if self.held_led && led_override.is_some() {
                    *led_override = None;
                    self.held_led = false;
                }
            },
        }
    }

    /// Hand back every channel the dance holds: a remote autonomy pin is
    /// lifted (one from another source is left alone), a held decorator and
    /// LED override are cleared. Afterwards nothing is held.
    pub fn release(&mut self, entity: &mut Entity, led_override: &mut Option<[u8; 3]>)
        ensures
            !final(self).held_emotion && !final(self).held_decorator && !final(self).held_led,
            final(entity).mind.autonomy == if old(self).held_emotion && old(entity).mind.autonomy.source == Some(OverrideSource::Remote) {
                Autonomy { manual_until: None, source: None }
            } else {
                old(entity).mind.autonomy
            },
            final(entity).face.decorator == if old(self).held_decorator { None } else { old(entity).face.decorator },
            *final(led_override) == if old(self).held_led { None } else { *old(led_override) },
            final(entity).face == (Face { decorator: final(entity).face.decorator, ..old(entity).face }),
            final(entity).mind.affect == old(entity).mind.affect,
            final(entity).mind.intent == old(entity).mind.intent,
            final(entity).mind.attention == old(entity).mind.attention,
            final(entity).mind.memory == old(entity).mind.memory,
            final(entity).mind.dormancy == old(entity).mind.dormancy,
            final(entity).mind.engagement == old(entity).mind.engagement,
            final(entity).perception == old(entity).perception,
            final(entity).voice == old(entity).voice,
            final(entity).input == old(entity).input,
            final(entity).events == old(entity).events,
            final(entity).tick == old(entity).tick,
    {
        if self.held_emotion {
            if entity.mind.autonomy.source == Some(OverrideSource::Remote) {
                entity.mind.autonomy.manual_until = None;
                entity.mind.autonomy.source = None;
            }
            self.held_emotion = false;
        }
        if self.held_decorator {
            entity.face.decorator = None;
            self.held_decorator = false;
        }
        if self.held_led {
            *led_override = None;
            self.held_led = false;
        }
    }
}

} // verus!
