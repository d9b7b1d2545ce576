//! Reflex emotions on transitions into handling intents.
use vstd::prelude::*;
use crate::clock::after;
use crate::director::{Field, ModifierMeta, Phase};
use crate::emotion::Emotion;
use crate::entity::Entity;
use crate::mind::{Affect, Autonomy, Intent, Mind, OverrideSource};
use crate::modifier::Modifier;
use crate::voice::{ChirpKind, Voice};
use super::MANUAL_HOLD_MS;

verus! {

/// Reacts to `mind.intent` transitions: PickedUp → Surprised + pickup chirp;
/// Shaken → Angry; other intents → no reflex. Defers to active holds.
#[derive(Debug, Clone, Copy)]
pub struct IntentReflex {
    last_intent: Intent,
}

/// The (emotion, override source, chirp) reflex of entering an intent.
pub open spec fn spec_react(intent: Intent) -> Option<(Emotion, OverrideSource, Option<ChirpKind>)> {
    match intent {
        Intent::PickedUp => Some((Emotion::Surprised, OverrideSource::Pickup, Some(ChirpKind::Pickup))),
        Intent::Shaken => Some((Emotion::Angry, OverrideSource::Shake, None)),
        _ => None,
    }
}

fn react(intent: Intent) -> (r: Option<(Emotion, OverrideSource, Option<ChirpKind>)>)
    ensures
        r == spec_react(intent),
{
    match intent {
        Intent::PickedUp => Some((Emotion::Surprised, OverrideSource::Pickup, Some(ChirpKind::Pickup))),
        Intent::Shaken => Some((Emotion::Angry, OverrideSource::Shake, None)),
        Intent::Tilted | Intent::Idle | Intent::Listen | Intent::BeingPet | Intent::Startled
        | Intent::HearingLoud => None,
    }
}

impl IntentReflex {
    /// Intent seen on the previous frame.
    pub closed spec fn last_intent(&self) -> Intent {
        self.last_intent
    }

    /// Construct with the previous intent taken as Idle.
    pub fn new() -> (r: Self)
        ensures
            r.last_intent() == Intent::Idle,
    {
        Self { last_intent: Intent::Idle }
    }
}

impl Default for IntentReflex {
    fn default() -> (r: Self)
        ensures
            r.last_intent() == Intent::Idle,
    {
        Self::new()
    }
}

impl IntentReflex {
    /// One update from entity `pre_entity` leaves the entity as
    /// `post_entity` and the modifier as `post_self`.
    pub open spec fn stepped(&self, post_self: Self, pre_entity: Entity, post_entity: Entity) -> bool {
        &&& (post_self.last_intent() == pre_entity.mind.intent)
        &&& (({
                let e = pre_entity;
                let now = e.tick.now;
                let held = e.mind.autonomy.manual_until matches Some(until) && now@ < until@;
                post_entity == (if e.mind.intent != self.last_intent() && spec_react(e.mind.intent) is Some && !held {
                    let (emotion, source, chirp) = spec_react(e.mind.intent)->0;
                    Entity {
                        mind: Mind {
                            affect: Affect { emotion },
                            autonomy: Autonomy { manual_until: Some(after(now, MANUAL_HOLD_MS)), source: Some(source) },
                            ..e.mind
                        },
                        voice: if chirp is Some { Voice { chirp_request: chirp } } else { e.voice },
                        ..e
                    }
                } else {
                    e
                })
            }))
    }
}

impl Modifier for IntentReflex {
    open spec fn obeys_modifier_spec(&self) -> bool {
        true
    }

    open spec fn declared_phase(&self) -> Phase {
        Phase::Affect
    }

    open spec fn declared_priority(&self) -> i8 {
        -80i8
    }

    open spec fn declared_writes(&self) -> Seq<Field> {
        seq![Field::Emotion, Field::Autonomy, Field::ChirpRequest]
    }

    open spec fn update_outcome(&self, before: Entity, after: Entity) -> bool {
        exists|n: Self| #[trigger] self.stepped(n, before, after)
    }

    fn meta(&self) -> (r: ModifierMeta)
        ensures
            r.name@ == "IntentReflex"@,
            r.description@ == "Reacts to mind.intent transitions: PickedUp -> Surprised + Pickup chirp; \
                          Shaken -> Angry; Tilted -> no reflex. Defers to active EmotionTouch \
                          holds."@,
            r.phase == Phase::Affect,
            r.priority == -80,
            r.reads@ == seq![Field::Intent, Field::Autonomy],
            r.writes@ == seq![Field::Emotion, Field::Autonomy, Field::ChirpRequest],
    {
        ModifierMeta {
            name: "IntentReflex",
            description: "Reacts to mind.intent transitions: PickedUp -> Surprised + Pickup chirp; \
                          Shaken -> Angry; Tilted -> no reflex. Defers to active EmotionTouch \
                          holds.",
            phase: Phase::Affect,
            priority: -80,
            reads: vec![Field::Intent, Field::Autonomy],
            writes: vec![Field::Emotion, Field::Autonomy, Field::ChirpRequest],
        }
    }

    fn update(&mut self, entity: &mut Entity)
        ensures
            final(self).last_intent() == old(entity).mind.intent,
            ({
                let e = *old(entity);
                let now = e.tick.now;
                let held = e.mind.autonomy.manual_until matches Some(until) && now@ < until@;
                *final(entity) == (if e.mind.intent != old(self).last_intent() && spec_react(e.mind.intent) is Some && !held {
                    let (emotion, source, chirp) = spec_react(e.mind.intent)->0;
                    Entity {
                        mind: Mind {
                            affect: Affect { emotion },
                            autonomy: Autonomy { manual_until: Some(after(now, MANUAL_HOLD_MS)), source: Some(source) },
                            ..e.mind
                        },
                        voice: if chirp is Some { Voice { chirp_request: chirp } } else { e.voice },
                        ..e
                    }
                } else {
                    e
                })
            }),
            old(self).stepped(*final(self), *old(entity), *final(entity)),
    {
        let now = entity.tick.now;
        let intent = entity.mind.intent;
        let changed = intent != self.last_intent;
        self.last_intent = intent;
        if !changed {
            assert(old(self).stepped(*self, *old(entity), *entity));
            return;
        }
        let reaction = react(intent);
        let (emotion, source, chirp) = match reaction {
            Some(t) => t,
            None => {
                assert(old(self).stepped(*self, *old(entity), *entity));
                return;
            },
        };
        if let Some(until) = entity.mind.autonomy.manual_until {
            if now.as_millis() < until.as_millis() {
                assert(old(self).stepped(*self, *old(entity), *entity));
                return;
            }
        }
        entity.mind.affect.emotion = emotion;
        entity.mind.autonomy.manual_until = Some(now.plus(MANUAL_HOLD_MS));
        entity.mind.autonomy.source = Some(source);
        if let Some(c) = chirp {
            entity.voice.chirp_request = Some(c);
        }
        assert(old(self).stepped(*self, *old(entity), *entity));
    }
}

} // verus!
