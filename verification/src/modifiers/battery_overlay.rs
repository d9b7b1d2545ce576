//! Maps the battery reading onto the on-screen indicator (opt-in).
use vstd::prelude::*;
use crate::director::{Field, ModifierMeta, Phase};
use crate::entity::Entity;
use crate::face::{BatteryBucket, BatteryOverlay, Face};
use crate::modifier::Modifier;

verus! {

/// Maps `perception.battery_percent` + `usb_power_present` to
/// `face.battery_overlay` when enabled; clears it when disabled.
#[derive(Debug, Clone, Copy)]
pub struct BatteryOverlayFromPerception {
    enabled: bool,
}

/// The indicator the readings call for: `None` before a percent reading
/// lands; otherwise the bucket of the percent, charging iff USB power is
/// reported present.
pub open spec fn spec_overlay_for(percent: Option<u8>, usb: Option<bool>) -> Option<BatteryOverlay> {
    match percent {
        Some(p) => Some(BatteryOverlay {
            bucket: BatteryBucket::spec_from_percent(p),
            charging: usb == Some(true),
        }),
        None => None,
    }
}

impl BatteryOverlayFromPerception {
    /// Whether the indicator is enabled.
    pub closed spec fn enabled(&self) -> bool {
        self.enabled
    }

    /// Construct with the given opt-in flag.
    pub fn with_enabled(enabled: bool) -> (r: Self)
        ensures
            r.enabled() == enabled,
    {
        Self { enabled }
    }

    /// Construct disabled.
    pub fn new() -> (r: Self)
        ensures
            !r.enabled(),
    {
        Self::with_enabled(false)
    }
}

impl Default for BatteryOverlayFromPerception {
    fn default() -> (r: Self)
        ensures
            !r.enabled(),
    {
        Self::new()
    }
}

impl BatteryOverlayFromPerception {
    /// One update from entity `pre_entity` leaves the entity as
    /// `post_entity` and the modifier as `post_self`.
    pub open spec fn stepped(&self, post_self: Self, pre_entity: Entity, post_entity: Entity) -> bool {
        &&& (post_self.enabled() == self.enabled())
        &&& (({
                let e = pre_entity;
                let next = if self.enabled() {
                    spec_overlay_for(e.perception.battery_percent, e.perception.usb_power_present)
                } else {
                    None
                };
                post_entity == (Entity { face: Face { battery_overlay: next, ..e.face }, ..e })
            }))
    }
}

impl Modifier for BatteryOverlayFromPerception {
    open spec fn obeys_modifier_spec(&self) -> bool {
        true
    }

    open spec fn declared_phase(&self) -> Phase {
        Phase::Decoration
    }

    open spec fn declared_priority(&self) -> i8 {
        5i8
    }

    open spec fn declared_writes(&self) -> Seq<Field> {
        seq![Field::BatteryOverlay]
    }

    open spec fn update_outcome(&self, before: Entity, after: Entity) -> bool {
        exists|n: Self| #[trigger] self.stepped(n, before, after)
    }

    fn meta(&self) -> (r: ModifierMeta)
        ensures
            r.name@ == "BatteryOverlayFromPerception"@,
            r.description@ == "Maps perception.battery_percent + usb_power_present to \
                          face.battery_overlay; opt-in via \
                          BehaviorConfig::battery_icon_enabled."@,
            r.phase == Phase::Decoration,
            r.priority == 5,
            r.reads@ == seq![Field::BatteryPercent, Field::UsbPowerPresent],
            r.writes@ == seq![Field::BatteryOverlay],
    {
        ModifierMeta {
            name: "BatteryOverlayFromPerception",
            description: "Maps perception.battery_percent + usb_power_present to \
                          face.battery_overlay; opt-in via \
                          BehaviorConfig::battery_icon_enabled.",
            phase: Phase::Decoration,
            priority: 5,
            reads: vec![Field::BatteryPercent, Field::UsbPowerPresent],
            writes: vec![Field::BatteryOverlay],
        }
    }

    fn update(&mut self, entity: &mut Entity)
        ensures
            final(self).enabled() == old(self).enabled(),
            ({
                let e = *old(entity);
                let next = if old(self).enabled() {
                    spec_overlay_for(e.perception.battery_percent, e.perception.usb_power_present)
                } else {
                    None
                };
                *final(entity) == (Entity { face: Face { battery_overlay: next, ..e.face }, ..e })
            }),
            old(self).stepped(*final(self), *old(entity), *final(entity)),
    {
        if !self.enabled {
            if entity.face.battery_overlay.is_some() {
                entity.face.battery_overlay = None;
            }
            assert(old(self).stepped(*self, *old(entity), *entity));
            return;
        }
        let next = match entity.perception.battery_percent {
            Some(percent) => Some(BatteryOverlay {
                bucket: BatteryBucket::from_percent(percent),
                charging: match entity.perception.usb_power_present {
                    Some(b) => b,
                    None => false,
                },
            }),
            None => None,
        };
        if entity.face.battery_overlay != next {
            entity.face.battery_overlay = next;
        }
        assert(old(self).stepped(*self, *old(entity), *entity));
    }
}

/// The modifier is determined by its enable flag: so
/// [`BatteryOverlayFromPerception::new`], its `default` and
/// `with_enabled(false)` build one and the same disabled modifier.
pub proof fn lemma_battery_overlay_determined(a: BatteryOverlayFromPerception, b: BatteryOverlayFromPerception)
    requires
        a.enabled() == b.enabled(),
    ensures
        a == b,
{
}

} // verus!
