use rustarok::collisions::WorldCollisions;
use rustarok::coords::WorldCoords;
use rustarok::manifestation::{SkillManifestation, SkillManifestationComponent, TimedAreaTrigger};
use rustarok::fire_bomb::FireBombSkill;
use rustarok::percentage::Percentage;
use rustarok::skill::{CharEntityId, SkillTargetType};
use rustarok::status::{
    AttackType, FireBombStatus, SimulationQueues, Status, StatusNature, StatusUpdateResult, Statuses,
    TimedStatus,
};
use rustarok::time::ElapsedTime;

fn bomb(until: i64) -> Status {
    Status::FireBomb(FireBombStatus {
        caster_entity_id: CharEntityId(9),
        damage: 120,
        started: ElapsedTime(until - 2000),
        until: ElapsedTime(until),
    })
}

#[test]
fn fire_bomb_waits_then_explodes() {
    let mut q = SimulationQueues::new();
    let me = CharEntityId(3);
    let pos = WorldCoords::new(5000, -2000);
    assert_eq!(bomb(3000).update(me, pos, ElapsedTime(2999), &mut q), StatusUpdateResult::KeepIt);
    assert!(q.area_attacks.is_empty());
    assert_eq!(bomb(3000).update(me, pos, ElapsedTime(3000), &mut q), StatusUpdateResult::RemoveIt);
    assert_eq!(q.area_attacks.len(), 1);
    let a = q.area_attacks[0];
    assert_eq!(a.center, pos);
    assert_eq!(a.radius, 2000);
    assert_eq!(a.source_entity_id, CharEntityId(9));
    assert_eq!(a.typ, AttackType::SpellDamage { damage: 120, combo: 10 });
    assert_eq!(q.apply_area_statuses.len(), 1);
    let s = q.apply_area_statuses[0];
    assert_eq!(s.except, Some(me));
    assert_eq!(
        s.status,
        Status::FireBomb(FireBombStatus {
            caster_entity_id: CharEntityId(9),
            damage: 120,
            started: ElapsedTime(3000),
            until: ElapsedTime(5000),
        })
    );
    assert!(q.apply_statuses.is_empty());
}

#[test]
fn status_natures_and_completion() {
    assert_eq!(bomb(3000).typ(), StatusNature::Harmful);
    assert_eq!(Status::Mounted { started: ElapsedTime(0) }.typ(), StatusNature::Neutral);
    let (ends, done) = bomb(3000).get_status_completion_percent(ElapsedTime(1500)).unwrap();
    assert_eq!(ends, ElapsedTime(3000));
    assert_eq!(done, Percentage::from_raw(25_000));
    let (_, done) = bomb(3000).get_status_completion_percent(ElapsedTime(9000)).unwrap();
    assert_eq!(done.as_i16(), 100);
    let (_, done) = bomb(3000).get_status_completion_percent(ElapsedTime(0)).unwrap();
    assert_eq!(done.as_i16(), 0);
    assert!(Status::Mounted { started: ElapsedTime(0) }.get_status_completion_percent(ElapsedTime(5)).is_none());
}

#[test]
fn statuses_gate_moving_and_casting() {
    let mut s = Statuses::new();
    assert!(s.can_cast() && s.can_move() && !s.is_mounted());
    s.add(Status::Silence(TimedStatus { started: ElapsedTime(0), until: ElapsedTime(10) }));
    assert!(!s.can_cast());
    assert!(s.can_move());
    s.add(Status::Stun(TimedStatus { started: ElapsedTime(0), until: ElapsedTime(10) }));
    assert!(!s.can_move());
    s.add(Status::Mounted { started: ElapsedTime(0) });
    assert!(s.is_mounted());
    assert_eq!(s.count(), 3);
}

#[test]
fn update_mask_marks_expired_and_removal_keeps_order() {
    let mut s = Statuses::new();
    s.add(bomb(100));
    s.add(Status::Stun(TimedStatus { started: ElapsedTime(0), until: ElapsedTime(500) }));
    s.add(bomb(50));
    s.add(Status::Silence(TimedStatus { started: ElapsedTime(0), until: ElapsedTime(700) }));
    let mut q = SimulationQueues::new();
    let mask = s.update(CharEntityId(1), WorldCoords::new(0, 0), ElapsedTime(100), &mut q);
    assert_eq!(mask, 0b0101);
    assert_eq!(q.area_attacks.len(), 2);
    s.remove_statuses(mask);
    assert_eq!(s.count(), 2);
    assert!(matches!(s.get(0), Status::Stun(_)));
    assert!(matches!(s.get(1), Status::Silence(_)));
}

#[test]
fn status_list_is_bounded() {
    let mut s = Statuses::new();
    for _ in 0..32 {
        assert!(s.add(bomb(100)));
    }
    assert!(!s.add(bomb(100)));
    assert_eq!(s.count(), 32);
}

#[test]
fn fire_bomb_cast_plants_bomb_on_target() {
    let skill = FireBombSkill;
    assert_eq!(skill.get_skill_target_type(), SkillTargetType::OnlyEnemy);
    assert!(skill.get_icon_path().ends_with("gn_makebomb.bmp"));
    let mut q = SimulationQueues::new();
    skill.finish_cast(CharEntityId(1), Some(CharEntityId(2)), ElapsedTime(400), 75, &mut q);
    assert_eq!(q.apply_statuses.len(), 1);
    let a = q.apply_statuses[0];
    assert_eq!(a.target_entity_id, CharEntityId(2));
    assert_eq!(
        a.status,
        Status::FireBomb(FireBombStatus {
            caster_entity_id: CharEntityId(1),
            damage: 75,
            started: ElapsedTime(400),
            until: ElapsedTime(2400),
        })
    );
    skill.finish_cast(CharEntityId(1), None, ElapsedTime(400), 75, &mut q);
    assert_eq!(q.apply_statuses.len(), 1);
}

#[test]
fn timed_area_trigger_bursts_once_then_ends() {
    let trigger = TimedAreaTrigger {
        caster_entity_id: CharEntityId(4),
        center: WorldCoords::new(100, 200),
        radius: 3000,
        until: ElapsedTime(1000),
        damage: 40,
        combo: 2,
        status: Some(bomb(5000)),
    };
    let mut m = SkillManifestationComponent::new(77, SkillManifestation::TimedAreaTrigger(trigger));
    let collisions = WorldCollisions::new();
    let mut q = SimulationQueues::new();
    assert_eq!(m.update(&collisions, ElapsedTime(999), &mut q), StatusUpdateResult::KeepIt);
    assert!(q.area_attacks.is_empty() && q.apply_area_statuses.is_empty());
    assert_eq!(m.update(&collisions, ElapsedTime(1000), &mut q), StatusUpdateResult::RemoveIt);
    assert_eq!(q.area_attacks.len(), 1);
    assert_eq!(q.area_attacks[0].typ, AttackType::SpellDamage { damage: 40, combo: 2 });
    assert_eq!(q.apply_area_statuses.len(), 1);
    assert_eq!(q.apply_area_statuses[0].except, Some(CharEntityId(4)));
    assert_eq!(m.self_entity_id, 77);
}

#[test]
fn removal_by_index_keeps_order() {
    let mut s = Statuses::new();
    s.add(bomb(1));
    s.add(Status::Stun(TimedStatus { started: ElapsedTime(0), until: ElapsedTime(2) }));
    s.add(bomb(3));
    assert_eq!(s.remove(1), Status::Stun(TimedStatus { started: ElapsedTime(0), until: ElapsedTime(2) }));
    assert_eq!(s.count(), 2);
    assert_eq!(s.get(0), bomb(1));
    assert_eq!(s.get(1), bomb(3));
}
