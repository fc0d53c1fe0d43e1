use vstd::prelude::*;

use crate::char_state::CharacterStateComponent;
use crate::time::ElapsedTime;

verus! {

/// Identity of a character in the simulation.
#[derive(Copy, Clone, Debug, PartialEq, Eq, Structural)]
pub struct CharEntityId(pub u32);

#[derive(Copy, Clone, Debug, PartialEq, Eq, Structural)]
pub enum Skills {
    FireWall,
    BrutalTestSkill,
    Lightning,
    Heal,
    Mounting,
    Poison,
    Cure,
    FireBomb,
    AbsorbShield,
    WizPyroBlast,
    AssaBladeDash,
}

/// Number of skills, the length of every per-skill table.
pub const SKILL_COUNT: usize = 11;

impl Skills {
    pub open spec fn index_spec(self) -> int {
        match self {
            Skills::FireWall => 0,
            Skills::BrutalTestSkill => 1,
            Skills::Lightning => 2,
            Skills::Heal => 3,
            Skills::Mounting => 4,
            Skills::Poison => 5,
            Skills::Cure => 6,
            Skills::FireBomb => 7,
            Skills::AbsorbShield => 8,
            Skills::WizPyroBlast => 9,
            Skills::AssaBladeDash => 10,
        }
    }

    /// Position of the skill in per-skill tables.
    pub fn index(&self) -> (r: usize)
        ensures
            r == self.index_spec(),
            r < SKILL_COUNT,
    {
        match self {
            Skills::FireWall => 0,
            Skills::BrutalTestSkill => 1,
            Skills::Lightning => 2,
            Skills::Heal => 3,
            Skills::Mounting => 4,
            Skills::Poison => 5,
            Skills::Cure => 6,
            Skills::FireBomb => 7,
            Skills::AbsorbShield => 8,
            Skills::WizPyroBlast => 9,
            Skills::AssaBladeDash => 10,
        }
    }
}

/// What a skill may be aimed at.
#[derive(Copy, Clone, Debug, PartialEq, Eq, Structural)]
pub enum SkillTargetType {
    /// casts immediately
    NoTarget,
    Area,
    Directional,
    AnyEntity,
    OnlyAllyButNoSelf,
    OnlyAllyAndSelf,
    OnlyEnemy,
    OnlySelf,
}

/// Configured casting figures of a skill. Lengths are in thousandths of a
/// world unit.
#[derive(Copy, Clone, Debug, PartialEq, Eq, Structural)]
pub struct SkillCastingAttributes {
    pub casting_time: ElapsedTime,
    pub cast_delay: ElapsedTime,
    pub casting_range: u32,
    /// in case of Directional skills
    pub width: Option<u32>,
}

/// Configured casting figures of every skill.
#[derive(Clone, Debug)]
pub struct SkillsConfig {
    /// By `Skills::index`.
    pub attributes: Vec<SkillCastingAttributes>,
    /// Casting the mounting skill while mounted.
    pub unmounting: SkillCastingAttributes,
}

impl SkillsConfig {
    pub open spec fn wf(&self) -> bool {
        self.attributes@.len() == SKILL_COUNT
    }
}

impl Skills {
    /// The casting figures of this skill for `char_state`: mounting while
    /// mounted uses the unmounting figures.
    pub fn get_cast_attributes(&self, configs: &SkillsConfig, char_state: &CharacterStateComponent) -> (r:
        SkillCastingAttributes)
        requires
            configs.wf(),
        ensures
            r == if *self == Skills::Mounting && exists|i: int|
                0 <= i < char_state.statuses@.len() && (#[trigger] char_state.statuses@[i]) is Mounted {
                configs.unmounting
            } else {
                configs.attributes@[self.index_spec()]
            },
    {
        match self {
            Skills::Mounting => {
                if char_state.statuses.is_mounted() {
                    configs.unmounting
                } else {
                    configs.attributes[self.index()]
                }
            },
            _ => configs.attributes[self.index()],
        }
    }
}

/// The target-type legality rule: may a skill of `target_type` and range
/// `range` be cast by `caster` on `target`, at squared distance `distance_sq`?
pub open spec fn casting_allowed_spec(
    target_type: SkillTargetType,
    range: u32,
    caster: CharEntityId,
    target: Option<CharEntityId>,
    distance_sq: u128,
) -> bool {
    let in_range = range * range >= distance_sq;
    match target_type {
        SkillTargetType::Area | SkillTargetType::Directional | SkillTargetType::NoTarget => true,
        SkillTargetType::AnyEntity | SkillTargetType::OnlyAllyAndSelf
        | SkillTargetType::OnlyEnemy => target is Some && in_range,
        SkillTargetType::OnlyAllyButNoSelf => (target matches Some(t) && t != caster) && in_range,
        SkillTargetType::OnlySelf => target == Some(caster),
    }
}

impl Skills {
    /// Whether the target suits the skill's target type and lies within its
    /// range. Distances are compared squared, so no root is taken.
    pub fn is_casting_allowed_based_on_target(
        skill_target_type: SkillTargetType,
        skill_casting_range: u32,
        caster_id: CharEntityId,
        target_entity: Option<CharEntityId>,
        target_distance_sq: u128,
    ) -> (r: bool)
        ensures
            r == casting_allowed_spec(
                skill_target_type,
                skill_casting_range,
                caster_id,
                target_entity,
                target_distance_sq,
            ),
    {
        let range = skill_casting_range as u128;
        assert(range * range <= 0xffff_ffff * 0xffff_ffff) by (nonlinear_arith)
            requires
                range <= 0xffff_ffff,
        ;
        let in_range = range * range >= target_distance_sq;
        match skill_target_type {
            SkillTargetType::Area => true,
            SkillTargetType::Directional => true,
            SkillTargetType::NoTarget => true,
            SkillTargetType::AnyEntity => target_entity.is_some() && in_range,
            SkillTargetType::OnlyAllyButNoSelf => {
                let not_self = match target_entity {
                    Some(it) => it.0 != caster_id.0,
                    None => false,
                };
                not_self && in_range
            },
            SkillTargetType::OnlyAllyAndSelf => target_entity.is_some() && in_range,
            SkillTargetType::OnlyEnemy => target_entity.is_some() && in_range,
            SkillTargetType::OnlySelf => match target_entity {
                Some(it) => it.0 == caster_id.0,
                None => false,
            },
        }
    }
}

} // verus!
