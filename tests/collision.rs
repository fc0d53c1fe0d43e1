use rustarok::collision::{blacklist, BodyStatus, CharPhysicsEntityBuilder, ColliderShape, CollisionGroup};
use rustarok::coords::WorldCoords;

#[test]
fn guard_blocks_everything() {
    let b = blacklist(CollisionGroup::Guard);
    assert_eq!(b.len(), 11);
    assert!(b.contains(&CollisionGroup::SkillArea));
}

#[test]
fn players_walk_through_each_other() {
    let b = blacklist(CollisionGroup::LeftPlayer);
    assert_eq!(
        b,
        vec![CollisionGroup::Minion, CollisionGroup::NonCollidablePlayer, CollisionGroup::Guard, CollisionGroup::Turret]
    );
    assert!(!b.contains(&CollisionGroup::RightPlayer));
    assert!(!b.contains(&CollisionGroup::StaticModel));
}

#[test]
fn barricades_block_only_their_own_team() {
    assert!(blacklist(CollisionGroup::LeftBarricade).contains(&CollisionGroup::LeftPlayer));
    assert!(!blacklist(CollisionGroup::LeftBarricade).contains(&CollisionGroup::RightPlayer));
    assert!(blacklist(CollisionGroup::RightBarricade).contains(&CollisionGroup::RightPlayer));
}

#[test]
fn physics_builder_steps() {
    let b = CharPhysicsEntityBuilder::new(WorldCoords::new(1, 2))
        .collision_group(CollisionGroup::Minion)
        .body_status(BodyStatus::Kinematic)
        .rectangle(2000, 1000);
    assert_eq!(b.self_group, CollisionGroup::Minion);
    assert_eq!(b.blacklist_groups, blacklist(CollisionGroup::Minion));
    assert_eq!(b.body_status, BodyStatus::Kinematic);
    assert_eq!(b.collider_shape, ColliderShape::Rectangle { width: 2000, height: 1000 });
    let c = b.circle(500);
    assert_eq!(c.collider_shape, ColliderShape::Circle { radius: 500 });
    assert_eq!(c.pos2d, WorldCoords::new(1, 2));
}
