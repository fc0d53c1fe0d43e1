use vstd::prelude::*;

use crate::skill::{CharEntityId, SkillTargetType};
use crate::status::{
    ApplyStatusComponent, FIRE_BOMB_DURATION_MILLIS, FireBombStatus, SimulationQueues, Status,
};
use crate::time::{ElapsedTime, MAX_SIMULATION_MILLIS};

verus! {

/// The fire bomb skill: plants a burning bomb on an enemy.
#[derive(Copy, Clone, Debug, PartialEq, Eq, Structural)]
pub struct FireBombSkill;

impl FireBombSkill {
    pub fn get_icon_path(&self) -> (r: &'static str) {
        "data\\texture\\À¯ÀúÀÎÅÍÆäÀÌ½º\\item\\gn_makebomb.bmp"
    }

    pub fn get_skill_target_type(&self) -> (r: SkillTargetType)
        ensures
            r == SkillTargetType::OnlyEnemy,
    {
        SkillTargetType::OnlyEnemy
    }

    /// Finishes a cast: requests a bomb of `damage` on the target, burning
    /// from `now` for the bomb's duration. Without a target (it left the
    /// simulation meanwhile) nothing is requested.
    pub fn finish_cast(
        &self,
        caster_entity_id: CharEntityId,
        target_entity: Option<CharEntityId>,
        now: ElapsedTime,
        damage: u32,
        queues: &mut SimulationQueues,
    )
        requires
            0 <= now.0 <= MAX_SIMULATION_MILLIS,
        ensures
            final(queues).apply_statuses@ == match target_entity {
                Some(target) => old(queues).apply_statuses@.push(
                    ApplyStatusComponent {
                        source_entity_id: caster_entity_id,
                        target_entity_id: target,
                        status: Status::FireBomb(
                            FireBombStatus {
                                caster_entity_id,
                                started: now,
                                until: ElapsedTime((now.0 + FIRE_BOMB_DURATION_MILLIS) as i64),
                                damage,
                            },
                        ),
                    },
                ),
                None => old(queues).apply_statuses@,
            },
            final(queues).area_attacks@ == old(queues).area_attacks@,
            final(queues).apply_area_statuses@ == old(queues).apply_area_statuses@,
    {
        if let Some(target) = target_entity {
            queues.apply_statuses.push(
                ApplyStatusComponent {
                    source_entity_id: caster_entity_id,
                    target_entity_id: target,
                    status: Status::FireBomb(
                        FireBombStatus {
                            caster_entity_id,
                            started: now,
                            until: now.add_millis(FIRE_BOMB_DURATION_MILLIS),
                            damage,
                        },
                    ),
                },
            );
        }
    }
}

} // verus!
