use vstd::prelude::*;

use crate::collisions::WorldCollisions;
use crate::coords::WorldCoords;
use crate::skill::CharEntityId;
use crate::status::{
    ApplyStatusInAreaComponent, AreaAttackComponent, AttackType, SimulationQueues, Status,
    StatusUpdateResult,
};
use crate::time::ElapsedTime;

verus! {

/// A delayed area effect: when its timer runs out it damages everyone in
/// the area once, optionally puts a status on them, and is done.
#[derive(Copy, Clone, Debug, PartialEq, Eq, Structural)]
pub struct TimedAreaTrigger {
    pub caster_entity_id: CharEntityId,
    pub center: WorldCoords,
    pub radius: u32,
    pub until: ElapsedTime,
    pub damage: u32,
    pub combo: u8,
    pub status: Option<Status>,
}

/// Every kind of long-lived effect a finished cast can leave in the world.
#[derive(Copy, Clone, Debug, PartialEq, Eq, Structural)]
pub enum SkillManifestation {
    TimedAreaTrigger(TimedAreaTrigger),
}

impl SkillManifestation {
    /// The manifestation's work is done at `now`.
    pub open spec fn finished(self, now: ElapsedTime) -> bool {
        match self {
            SkillManifestation::TimedAreaTrigger(t) => t.until.0 <= now.0,
        }
    }

    /// Area attacks it requests when updated at `now`.
    pub open spec fn area_attacks_of(self, now: ElapsedTime) -> Seq<AreaAttackComponent> {
        match self {
            SkillManifestation::TimedAreaTrigger(t) => if self.finished(now) {
                seq![
                    AreaAttackComponent {
                        center: t.center,
                        radius: t.radius,
                        source_entity_id: t.caster_entity_id,
                        typ: AttackType::SpellDamage { damage: t.damage, combo: t.combo },
                    },
                ]
            } else {
                seq![]
            },
        }
    }

    /// Area status requests it makes when updated at `now`.
    pub open spec fn area_statuses_of(self, now: ElapsedTime) -> Seq<ApplyStatusInAreaComponent> {
        match self {
            SkillManifestation::TimedAreaTrigger(t) => match t.status {
                Some(status) => if self.finished(now) {
                    seq![
                        ApplyStatusInAreaComponent {
                            source_entity_id: t.caster_entity_id,
                            status,
                            center: t.center,
                            radius: t.radius,
                            except: Some(t.caster_entity_id),
                        },
                    ]
                } else {
                    seq![]
                },
                None => seq![],
            },
        }
    }
}

/// A manifestation owned by its own simulation entity.
#[derive(Copy, Clone, Debug, PartialEq, Eq, Structural)]
pub struct SkillManifestationComponent {
    pub self_entity_id: u32,
    pub skill: SkillManifestation,
}

impl SkillManifestationComponent {
    pub fn new(self_entity_id: u32, skill: SkillManifestation) -> (r: SkillManifestationComponent)
        ensures
            r.self_entity_id == self_entity_id,
            r.skill == skill,
    {
        SkillManifestationComponent { self_entity_id, skill }
    }

    /// One tick of the manifestation, given the collisions standing now:
    /// pushes its requests onto `queues` and says whether its entity is to
    /// be removed from the simulation.
    pub fn update(
        &mut self,
        _all_collisions_in_world: &WorldCollisions,
        now: ElapsedTime,
        queues: &mut SimulationQueues,
    ) -> (r: StatusUpdateResult)
        ensures
            r == (if old(self).skill.finished(now) {
                StatusUpdateResult::RemoveIt
            } else {
                StatusUpdateResult::KeepIt
            }),
            *final(self) == *old(self),
            final(queues).area_attacks@ == old(queues).area_attacks@ + old(self).skill.area_attacks_of(now),
            final(queues).apply_area_statuses@ == old(queues).apply_area_statuses@
                + old(self).skill.area_statuses_of(now),
            final(queues).apply_statuses@ == old(queues).apply_statuses@,
    {
        match self.skill {
            SkillManifestation::TimedAreaTrigger(t) => {
                if t.until.has_already_passed(now) {
                    queues.area_attacks.push(
                        AreaAttackComponent {
                            center: t.center,
                            radius: t.radius,
                            source_entity_id: t.caster_entity_id,
                            typ: AttackType::SpellDamage { damage: t.damage, combo: t.combo },
                        },
                    );
                    if let Some(status) = t.status {
                        queues.apply_area_statuses.push(
                            ApplyStatusInAreaComponent {
                                source_entity_id: t.caster_entity_id,
                                status,
                                center: t.center,
                                radius: t.radius,
                                except: Some(t.caster_entity_id),
                            },
                        );
                    }
                    assert(queues.area_attacks@ =~= old(queues).area_attacks@
                        + self.skill.area_attacks_of(now));
                    assert(queues.apply_area_statuses@ =~= old(queues).apply_area_statuses@
                        + self.skill.area_statuses_of(now));
                    StatusUpdateResult::RemoveIt
                } else {
                    assert(queues.area_attacks@ =~= old(queues).area_attacks@ + seq![]);
                    assert(queues.apply_area_statuses@ =~= old(queues).apply_area_statuses@
                        + seq![]);
                    StatusUpdateResult::KeepIt
                }
            },
        }
    }
}

} // verus!
