use rustarok::attributes::{Attribute, CharAttributeModifier, CharAttributes};
use rustarok::collision::CollisionGroup;
use rustarok::char_state::{CharState, CharacterStateComponent, RecalcError, Team};
use rustarok::coords::WorldCoords;
use rustarok::percentage::percentage;
use rustarok::skill::CharEntityId;
use rustarok::status::{
    AttributeBonusStatus, SimulationQueues, Status, StatusNature, TimedStatus,
};
use rustarok::time::ElapsedTime;

fn base(armor: i32) -> CharAttributes {
    CharAttributes {
        max_hp: 1000,
        attack_damage: 50,
        movement_speed: percentage(100),
        attack_range: percentage(100),
        attack_speed: percentage(100),
        armor: percentage(armor),
        healing: percentage(100),
        hp_regen: percentage(100),
        mana_regen: percentage(100),
    }
}

fn armor_status(p: i32, until: i64) -> Status {
    Status::AttributeBonus(AttributeBonusStatus {
        attribute: Attribute::Armor,
        modifier: CharAttributeModifier::IncreaseByPercentage(percentage(p)),
        started: ElapsedTime(0),
        until: ElapsedTime(until),
        nature: StatusNature::Beneficial,
    })
}

fn character(armor: i32) -> CharacterStateComponent {
    CharacterStateComponent::new("hero".to_string(), Team::Left, 1, base(armor), 7, 8)
}

#[test]
fn new_character_starts_from_base() {
    let c = character(10);
    assert_eq!(c.hp, 1000);
    assert_eq!(*c.calculated_attribs(), base(10));
    assert_eq!(*c.base_attributes(), base(10));
    assert_eq!(c.get_status_count(), 0);
    assert_eq!(*c.prev_state(), CharState::Idle);
    assert_eq!(c.skill_cast_allowed_at.len(), 11);
    assert!(c.attrib_bonuses().durations.armor.is_none());
}

#[test]
fn stacked_armor_statuses_end_to_end() {
    for (first, second) in [(-30, 70), (70, -30)] {
        let mut c = character(100);
        assert!(c.statuses.add(armor_status(first, 1000)));
        assert!(c.statuses.add(armor_status(second, 1000)));
        c.recalc_attribs_based_on_statuses().unwrap();
        assert_eq!(c.calculated_attribs().armor.as_i16(), 100);
    }
    let mut a = character(50);
    a.statuses.add(armor_status(-30, 1000));
    a.statuses.add(armor_status(70, 1000));
    a.recalc_attribs_based_on_statuses().unwrap();
    let mut b = character(50);
    b.statuses.add(armor_status(70, 1000));
    b.statuses.add(armor_status(-30, 1000));
    b.recalc_attribs_based_on_statuses().unwrap();
    let x = a.calculated_attribs().armor.raw();
    let y = b.calculated_attribs().armor.raw();
    assert!((x - y).abs() <= 1000);
    assert_eq!(a.calculated_attribs().armor.as_i16(), 59);
}

#[test]
fn expired_statuses_are_removed_with_one_recompute() {
    let mut c = character(10);
    c.statuses.add(armor_status(100, 50));
    c.statuses.add(Status::Stun(TimedStatus { started: ElapsedTime(0), until: ElapsedTime(100) }));
    c.statuses.add(armor_status(50, 55));
    c.recalc_attribs_based_on_statuses().unwrap();
    assert_eq!(c.calculated_attribs().armor.as_i16(), 30);
    let mut q = SimulationQueues::new();
    let me = CharEntityId(1);
    let pos = WorldCoords::new(0, 0);
    assert_eq!(c.update_statuses(me, pos, ElapsedTime(40), &mut q), Ok(false));
    assert_eq!(c.get_status_count(), 3);
    assert_eq!(c.update_statuses(me, pos, ElapsedTime(60), &mut q), Ok(true));
    assert_eq!(c.get_status_count(), 1);
    assert!(matches!(c.statuses.get(0), Status::Stun(_)));
    assert_eq!(c.calculated_attribs().armor.as_i16(), 10);
    assert_eq!(c.update_statuses(me, pos, ElapsedTime(70), &mut q), Ok(false));
    assert_eq!(c.update_statuses(me, pos, ElapsedTime(100), &mut q), Ok(true));
    assert_eq!(c.get_status_count(), 0);
}

#[test]
fn misconfigured_status_fails_recompute() {
    let mut c = character(10);
    c.statuses.add(Status::AttributeBonus(AttributeBonusStatus {
        attribute: Attribute::MaxHp,
        modifier: CharAttributeModifier::AddPercentage(percentage(10)),
        started: ElapsedTime(0),
        until: ElapsedTime(100),
        nature: StatusNature::Beneficial,
    }));
    assert_eq!(c.recalc_attribs_based_on_statuses(), Err(RecalcError::InvalidModifiers));
    assert_eq!(*c.calculated_attribs(), base(10));
}

#[test]
fn base_attribute_update_recomputes() {
    let mut c = character(10);
    c.statuses.add(armor_status(100, 1000));
    c.update_base_attributes(base(20)).unwrap();
    assert_eq!(c.calculated_attribs().armor.as_i16(), 40);
}

#[test]
fn state_transitions() {
    let mut c = character(10);
    let casting = CharState::CastingSkill(rustarok::char_state::CastingSkillData {
        target_area_pos: None,
        char_to_skill_dir_when_casted: WorldCoords::new(1, 0),
        target_entity: None,
        cast_started: ElapsedTime(0),
        cast_ends: ElapsedTime(10),
        can_move: false,
        skill: rustarok::skill::Skills::FireBomb,
    });
    assert!(c.state_type_has_changed(&casting));
    c.save_prev_state(&casting);
    assert!(!c.state_type_has_changed(&casting));
    assert!(c.went_from_casting_to_idle(&CharState::Idle));
    assert!(!c.went_from_casting_to_idle(&CharState::Dead));
    c.save_prev_state(&CharState::Walking(WorldCoords::new(3, 3)));
    assert!(!c.state_type_has_changed(&CharState::Walking(WorldCoords::new(9, 9))));
    assert!(!c.went_from_casting_to_idle(&CharState::Idle));
    assert!(CharState::Walking(WorldCoords::new(0, 0)).is_walking());
    assert!(CharState::Dead.is_dead());
    assert!(!CharState::Dead.is_alive());
    assert!(CharState::Idle.is_alive());
}

#[test]
fn team_collision_groups() {
    assert_eq!(Team::Left.get_collision_group(), CollisionGroup::LeftPlayer);
    assert_eq!(Team::Right.get_collision_group(), CollisionGroup::RightPlayer);
    assert_eq!(Team::Neutral.get_collision_group(), CollisionGroup::NeutralPlayerPlayer);
}

#[test]
fn phasing_moves_between_membership_bits() {
    let c = character(10);
    let team_bit = 1u32 << CollisionGroup::LeftPlayer.index();
    let phased_bit = 1u32 << CollisionGroup::NonCollidablePlayer.index();
    let other = 1u32 << CollisionGroup::Minion.index();
    let (m, status) = c.set_noncollidable(team_bit | other);
    assert_eq!(m, phased_bit | other);
    assert_eq!(status, rustarok::collision::BodyStatus::Kinematic);
    let (m, status) = c.set_collidable(m);
    assert_eq!(m, team_bit | other);
    assert_eq!(status, rustarok::collision::BodyStatus::Dynamic);
}
