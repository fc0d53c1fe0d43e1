use rustarok::attributes::CharAttributes;
use rustarok::casting::{
    can_char_cast, can_char_move, isqrt, limit_vector_into_range, try_cast_skill, EntitiesBelowCursor,
};
use rustarok::char_state::{CastingSkillData, CharState, CharacterStateComponent, Team};
use rustarok::coords::WorldCoords;
use rustarok::skill::{
    CharEntityId, SkillCastingAttributes, SkillTargetType, Skills, SkillsConfig,
};
use rustarok::status::{Status, TimedStatus};
use rustarok::time::ElapsedTime;

fn character() -> CharacterStateComponent {
    CharacterStateComponent::new("caster".to_string(), Team::Right, 2, CharAttributes::zero(), 0, 0)
}

fn attrs() -> SkillCastingAttributes {
    SkillCastingAttributes {
        casting_time: ElapsedTime(500),
        cast_delay: ElapsedTime(3000),
        casting_range: 10_000,
        width: None,
    }
}

const ME: CharEntityId = CharEntityId(1);
const ENEMY: CharEntityId = CharEntityId(2);

#[test]
fn blocked_cast_is_retried_then_started() {
    let mut c = character();
    c.cannot_control_until = ElapsedTime(1000);
    let mut state = CharState::Idle;
    let below = EntitiesBelowCursor { enemy: Some(ENEMY), friend: None };
    let here = WorldCoords::new(0, 0);
    let there = WorldCoords::new(3000, 4000);
    let retry = try_cast_skill(Skills::FireBomb, SkillTargetType::OnlyEnemy, &attrs(), ElapsedTime(500), &mut c, &mut state, here, there, &below, ME, false);
    assert!(retry);
    assert_eq!(state, CharState::Idle);
    assert_eq!(c.skill_cast_allowed_at[Skills::FireBomb.index()], ElapsedTime(0));
    let retry = try_cast_skill(Skills::FireBomb, SkillTargetType::OnlyEnemy, &attrs(), ElapsedTime(1000), &mut c, &mut state, here, there, &below, ME, false);
    assert!(!retry);
    assert_eq!(
        state,
        CharState::CastingSkill(CastingSkillData {
            target_area_pos: None,
            char_to_skill_dir_when_casted: there,
            target_entity: Some(ENEMY),
            cast_started: ElapsedTime(1000),
            cast_ends: ElapsedTime(1500),
            can_move: false,
            skill: Skills::FireBomb,
        })
    );
    assert_eq!(c.skill_cast_allowed_at[Skills::FireBomb.index()], ElapsedTime(4000));
}

#[test]
fn blocked_cast_without_target_is_dropped_once_unblocked() {
    let mut c = character();
    c.cannot_control_until = ElapsedTime(1000);
    let mut state = CharState::Walking(WorldCoords::new(1, 1));
    let below = EntitiesBelowCursor { enemy: None, friend: Some(CharEntityId(5)) };
    let here = WorldCoords::new(0, 0);
    assert!(try_cast_skill(Skills::Poison, SkillTargetType::OnlyEnemy, &attrs(), ElapsedTime(10), &mut c, &mut state, here, here, &below, ME, false));
    assert!(!try_cast_skill(Skills::Poison, SkillTargetType::OnlyEnemy, &attrs(), ElapsedTime(1000), &mut c, &mut state, here, here, &below, ME, false));
    assert_eq!(state, CharState::Walking(WorldCoords::new(1, 1)));
}

#[test]
fn cooldown_makes_cast_retry() {
    let mut c = character();
    let mut state = CharState::Idle;
    let below = EntitiesBelowCursor { enemy: Some(ENEMY), friend: None };
    let here = WorldCoords::new(0, 0);
    assert!(!try_cast_skill(Skills::Lightning, SkillTargetType::AnyEntity, &attrs(), ElapsedTime(0), &mut c, &mut state, here, here, &below, ME, false));
    let mut state = CharState::Idle;
    assert!(try_cast_skill(Skills::Lightning, SkillTargetType::AnyEntity, &attrs(), ElapsedTime(2999), &mut c, &mut state, here, here, &below, ME, false));
    assert_eq!(state, CharState::Idle);
}

#[test]
fn area_cast_lands_within_range() {
    let mut c = character();
    let mut state = CharState::Idle;
    let below = EntitiesBelowCursor { enemy: None, friend: None };
    let here = WorldCoords::new(1000, 1000);
    let far = WorldCoords::new(1000 + 30_000, 1000 + 40_000);
    assert!(!try_cast_skill(Skills::FireWall, SkillTargetType::Area, &attrs(), ElapsedTime(0), &mut c, &mut state, here, far, &below, ME, false));
    match state {
        CharState::CastingSkill(d) => {
            assert_eq!(d.target_area_pos, Some(WorldCoords::new(1000 + 6000, 1000 + 8000)));
            assert_eq!(d.target_entity, None);
        }
        _ => panic!("cast did not start"),
    }
}

#[test]
fn out_of_range_target_is_dropped() {
    let mut c = character();
    let mut state = CharState::Idle;
    let below = EntitiesBelowCursor { enemy: Some(ENEMY), friend: None };
    let here = WorldCoords::new(0, 0);
    let far = WorldCoords::new(10_001, 0);
    assert!(!try_cast_skill(Skills::Poison, SkillTargetType::OnlyEnemy, &attrs(), ElapsedTime(0), &mut c, &mut state, here, far, &below, ME, false));
    assert_eq!(state, CharState::Idle);
}

#[test]
fn casting_and_moving_gates() {
    let mut c = character();
    let now = ElapsedTime(100);
    assert!(can_char_cast(&c, &CharState::Idle, now));
    assert!(can_char_cast(&c, &CharState::Walking(WorldCoords::new(0, 0)), now));
    assert!(!can_char_cast(&c, &CharState::Dead, now));
    assert!(!can_char_cast(&c, &CharState::StandBy, now));
    assert!(can_char_move(&c, &CharState::StandBy, now));
    assert!(!can_char_move(&c, &CharState::Dead, now));
    c.statuses.add(Status::Silence(TimedStatus { started: ElapsedTime(0), until: ElapsedTime(1000) }));
    assert!(!can_char_cast(&c, &CharState::Idle, now));
    assert!(can_char_move(&c, &CharState::Idle, now));
    c.statuses.add(Status::Stun(TimedStatus { started: ElapsedTime(0), until: ElapsedTime(1000) }));
    assert!(!can_char_move(&c, &CharState::Idle, now));
    let mut d = character();
    d.cannot_control_until = ElapsedTime(101);
    assert!(!can_char_cast(&d, &CharState::Idle, now));
    assert!(!can_char_move(&d, &CharState::Idle, now));
    assert!(can_char_move(&d, &CharState::Idle, ElapsedTime(101)));
}

#[test]
fn target_legality_rules() {
    let allowed = |t, target, d: u128| Skills::is_casting_allowed_based_on_target(t, 100, ME, target, d);
    assert!(allowed(SkillTargetType::Area, None, 1_000_000));
    assert!(allowed(SkillTargetType::OnlyEnemy, Some(ENEMY), 10_000));
    assert!(!allowed(SkillTargetType::OnlyEnemy, Some(ENEMY), 10_001));
    assert!(!allowed(SkillTargetType::OnlyEnemy, None, 0));
    assert!(!allowed(SkillTargetType::OnlyAllyButNoSelf, Some(ME), 0));
    assert!(allowed(SkillTargetType::OnlyAllyButNoSelf, Some(ENEMY), 0));
    assert!(allowed(SkillTargetType::OnlySelf, Some(ME), 1_000_000));
    assert!(!allowed(SkillTargetType::OnlySelf, Some(ENEMY), 0));
}

#[test]
fn integer_square_root_and_range_limit() {
    assert_eq!(isqrt(0), 0);
    assert_eq!(isqrt(24), 4);
    assert_eq!(isqrt(25), 5);
    assert_eq!(isqrt(u64::MAX as u128), 4_294_967_295);
    let (pos, dir) = limit_vector_into_range(&WorldCoords::new(0, 0), &WorldCoords::new(-300, 400), 100);
    assert_eq!(pos, WorldCoords::new(-60, 80));
    assert_eq!(dir, WorldCoords::new(-300, 400));
    let (pos, _) = limit_vector_into_range(&WorldCoords::new(0, 0), &WorldCoords::new(30, 40), 100);
    assert_eq!(pos, WorldCoords::new(30, 40));
}

#[test]
fn mounting_uses_unmounting_figures_when_mounted() {
    let mut table = Vec::new();
    for i in 0..11 {
        table.push(SkillCastingAttributes { casting_time: ElapsedTime(i), cast_delay: ElapsedTime(0), casting_range: 1, width: None });
    }
    let unmounting = SkillCastingAttributes { casting_time: ElapsedTime(99), cast_delay: ElapsedTime(0), casting_range: 1, width: Some(3) };
    let configs = SkillsConfig { attributes: table, unmounting };
    let mut c = character();
    assert_eq!(Skills::Mounting.get_cast_attributes(&configs, &c).casting_time, ElapsedTime(4));
    c.statuses.add(Status::Mounted { started: ElapsedTime(0) });
    assert_eq!(Skills::Mounting.get_cast_attributes(&configs, &c), unmounting);
    assert_eq!(Skills::Heal.get_cast_attributes(&configs, &c).casting_time, ElapsedTime(3));
}
