//! Additive face-style overrides from the current intent.
use vstd::prelude::*;
use crate::director::{Field, ModifierMeta, Phase};
use crate::entity::Entity;
use crate::face::{Face, Style};
use crate::mind::Intent;
use crate::modifier::Modifier;

verus! {

/// Extra cheek blush while being pet.
pub const PETTING_BLUSH_BUMP: u8 = 30;

/// Translates `mind.intent` into additive `face.style` overrides: being pet
/// adds [`PETTING_BLUSH_BUMP`] to the cheek blush. Stateless.
#[derive(Debug, Clone, Copy, Default)]
pub struct IntentStyle;

impl IntentStyle {
    /// Construct the modifier.
    pub fn new() -> (r: Self) {
        IntentStyle
    }
}

/// The blush an intent adds.
pub open spec fn spec_blush_for(intent: Intent) -> u8 {
    if intent == Intent::BeingPet { PETTING_BLUSH_BUMP } else { 0 }
}

fn blush_for(intent: Intent) -> (r: u8)
    ensures
        r == spec_blush_for(intent),
{
    match intent {
        Intent::BeingPet => PETTING_BLUSH_BUMP,
        Intent::Idle | Intent::Listen | Intent::PickedUp | Intent::Shaken | Intent::Tilted
        | Intent::HearingLoud | Intent::Startled => 0,
    }
}

impl IntentStyle {
    /// One update from entity `pre_entity` leaves the entity as
    /// `post_entity` and the modifier as `post_self`.
    pub open spec fn stepped(&self, post_self: Self, pre_entity: Entity, post_entity: Entity) -> bool {
        &&& (({
                let e = pre_entity;
                let b = e.face.style.cheek_blush + spec_blush_for(e.mind.intent);
                post_entity == (Entity {
                    face: Face { style: Style { cheek_blush: if b <= 255 { b as u8 } else { 255u8 }, ..e.face.style }, ..e.face },
                    ..e
                })
            }))
    }
}

impl Modifier for IntentStyle {
    open spec fn obeys_modifier_spec(&self) -> bool {
        true
    }

    open spec fn declared_phase(&self) -> Phase {
        Phase::Expression
    }

    open spec fn declared_priority(&self) -> i8 {
        -5i8
    }

    open spec fn declared_writes(&self) -> Seq<Field> {
        seq![Field::CheekBlush]
    }

    open spec fn update_outcome(&self, before: Entity, after: Entity) -> bool {
        exists|n: Self| #[trigger] self.stepped(n, before, after)
    }

    fn meta(&self) -> (r: ModifierMeta)
        ensures
            r.name@ == "IntentStyle"@,
            r.description@ == "Translates mind.intent into additive face.style overrides. \
                          BeingPet adds +PETTING_BLUSH_BUMP to cheek_blush; other intents \
                          contribute 0. Stateless — relies on EmotionStyle re-writing the \
                          cheek_blush baseline each tick."@,
            r.phase == Phase::Expression,
            r.priority == -5,
            r.reads@ == seq![Field::Intent, Field::CheekBlush],
            r.writes@ == seq![Field::CheekBlush],
    {
        ModifierMeta {
            name: "IntentStyle",
            description: "Translates mind.intent into additive face.style overrides. \
                          BeingPet adds +PETTING_BLUSH_BUMP to cheek_blush; other intents \
                          contribute 0. Stateless — relies on EmotionStyle re-writing the \
                          cheek_blush baseline each tick.",
            phase: Phase::Expression,
            priority: -5,
            reads: vec![Field::Intent, Field::CheekBlush],
            writes: vec![Field::CheekBlush],
        }
    }

    fn update(&mut self, entity: &mut Entity)
        ensures
            ({
                let e = *old(entity);
                let b = e.face.style.cheek_blush + spec_blush_for(e.mind.intent);
                *final(entity) == (Entity {
                    face: Face { style: Style { cheek_blush: if b <= 255 { b as u8 } else { 255u8 }, ..e.face.style }, ..e.face },
                    ..e
                })
            }),
            old(self).stepped(*final(self), *old(entity), *final(entity)),
    {
        let bump = blush_for(entity.mind.intent);
        entity.face.style.cheek_blush = entity.face.style.cheek_blush.saturating_add(bump);
        assert(old(self).stepped(*self, *old(entity), *entity));
    }
}

} // verus!
