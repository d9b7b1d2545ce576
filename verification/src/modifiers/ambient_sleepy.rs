//! Ambient-light sleepiness: the emotion turns Sleepy when the room goes
//! dark and the hold lapses once it is bright again, with hysteresis
//! between the two thresholds.
use vstd::prelude::*;
use crate::clock::{after, Instant};
use crate::director::{Field, ModifierMeta, Phase};
use crate::emotion::Emotion;
use crate::entity::Entity;
use crate::mind::{Affect, Autonomy, Mind, OverrideSource};
use crate::modifier::Modifier;
use crate::perception::AmbientLight;

verus! {

/// How long each dark tick pins Sleepy, in ms.
pub const AMBIENT_HOLD_MS: u64 = 5_000;

/// Watches the classified ambient light and toggles Sleepy with hysteresis.
/// Stands down while another input holds the emotion.
#[derive(Debug, Clone, Copy, Default)]
pub struct AmbientSleepy {
    is_asleep: bool,
}

/// The hysteresis: a dark reading puts an awake entity to sleep, a bright
/// reading wakes a sleeping one, anything else keeps the belief.
pub open spec fn spec_next_asleep(asleep: bool, light: AmbientLight) -> bool {
    if !asleep && light == AmbientLight::Dark {
        true
    } else if asleep && light == AmbientLight::Bright {
        false
    } else {
        asleep
    }
}

impl AmbientSleepy {
    /// Whether the modifier believes the entity should be asleep.
    pub closed spec fn asleep(&self) -> bool {
        self.is_asleep
    }

    /// Construct in the awake state.
    pub fn new() -> (r: Self)
        ensures
            !r.asleep(),
    {
        Self { is_asleep: false }
    }

    /// Whether the modifier believes the entity should be asleep.
    pub fn is_asleep(&self) -> (r: bool)
        ensures
            r == self.asleep(),
    {
        self.is_asleep
    }
}

impl AmbientSleepy {
    /// One update from entity `pre_entity` leaves the entity as
    /// `post_entity` and the modifier as `post_self`.
    pub open spec fn stepped(&self, post_self: Self, pre_entity: Entity, post_entity: Entity) -> bool {
        &&& (({
                let e = pre_entity;
                let now = e.tick.now;
                match e.perception.ambient {
                    None => post_self.asleep() == self.asleep() && post_entity == e,
                    Some(light) => {
                        let asleep = spec_next_asleep(self.asleep(), light);
                        let held = e.mind.autonomy.manual_until matches Some(until) && now@ < until@;
                        &&& post_self.asleep() == asleep
                        &&& post_entity == (if !held && asleep {
                            Entity {
                                mind: Mind {
                                    affect: Affect { emotion: Emotion::Sleepy },
                                    autonomy: Autonomy {
                                        manual_until: Some(after(now, AMBIENT_HOLD_MS)),
                                        source: Some(OverrideSource::Ambient),
                                    },
                                    ..e.mind
                                },
                                ..e
                            }
                        } else {
                            e
                        })
                    },
                }
            }))
    }
}

impl Modifier for AmbientSleepy {
    open spec fn obeys_modifier_spec(&self) -> bool {
        true
    }

    open spec fn declared_phase(&self) -> Phase {
        Phase::Affect
    }

    open spec fn declared_priority(&self) -> i8 {
        -60i8
    }

    open spec fn declared_writes(&self) -> Seq<Field> {
        seq![Field::Emotion, Field::Autonomy]
    }

    open spec fn update_outcome(&self, before: Entity, after: Entity) -> bool {
        exists|n: Self| #[trigger] self.stepped(n, before, after)
    }

    fn meta(&self) -> (r: ModifierMeta)
        ensures
            r.name@ == "AmbientSleepy"@,
            r.description@ == "Watches perception.ambient_lux with hysteresis: Sleepy below the enter \
                          threshold, awake above the exit threshold. Re-arms a short hold on every \
                          dark tick; stands down while another input holds the emotion."@,
            r.phase == Phase::Affect,
            r.priority == -60,
            r.reads@ == seq![Field::AmbientLux, Field::Autonomy],
            r.writes@ == seq![Field::Emotion, Field::Autonomy],
    {
        ModifierMeta {
            name: "AmbientSleepy",
            description: "Watches perception.ambient_lux with hysteresis: Sleepy below the enter \
                          threshold, awake above the exit threshold. Re-arms a short hold on every \
                          dark tick; stands down while another input holds the emotion.",
            phase: Phase::Affect,
            priority: -60,
            reads: vec![Field::AmbientLux, Field::Autonomy],
            writes: vec![Field::Emotion, Field::Autonomy],
        }
    }

    fn update(&mut self, entity: &mut Entity)
        ensures
            ({
                let e = *old(entity);
                let now = e.tick.now;
                match e.perception.ambient {
                    None => final(self).asleep() == old(self).asleep() && *final(entity) == e,
                    Some(light) => {
                        let asleep = spec_next_asleep(old(self).asleep(), light);
                        let held = e.mind.autonomy.manual_until matches Some(until) && now@ < until@;
                        &&& final(self).asleep() == asleep
                        &&& *final(entity) == (if !held && asleep {
                            Entity {
                                mind: Mind {
                                    affect: Affect { emotion: Emotion::Sleepy },
                                    autonomy: Autonomy {
                                        manual_until: Some(after(now, AMBIENT_HOLD_MS)),
                                        source: Some(OverrideSource::Ambient),
                                    },
                                    ..e.mind
                                },
                                ..e
                            }
                        } else {
                            e
                        })
                    },
                }
            }),
            old(self).stepped(*final(self), *old(entity), *final(entity)),
    {
        let now = entity.tick.now;
        let light = match entity.perception.ambient {
            Some(l) => l,
            None => {
                assert(old(self).stepped(*self, *old(entity), *entity));
                return;
            },
        };
        if !self.is_asleep && matches!(light, AmbientLight::Dark) {
            self.is_asleep = true;
        } else if self.is_asleep && matches!(light, AmbientLight::Bright) {
            self.is_asleep = false;
        }
        if let Some(until) = entity.mind.autonomy.manual_until {
            if now.as_millis() < until.as_millis() {
                assert(old(self).stepped(*self, *old(entity), *entity));
                return;
            }
        }
        if self.is_asleep {
            entity.mind.affect.emotion = Emotion::Sleepy;
            entity.mind.autonomy.manual_until = Some(now.plus(AMBIENT_HOLD_MS));
            entity.mind.autonomy.source = Some(OverrideSource::Ambient);
        }
        assert(old(self).stepped(*self, *old(entity), *entity));
    }
}

/// Readings inside the hysteresis band never change the belief, so light
/// hovering between the thresholds cannot make the face flicker.
pub proof fn lemma_dim_holds_state(asleep: bool)
    ensures
        spec_next_asleep(asleep, AmbientLight::Dim) == asleep,
{
}

} // verus!
