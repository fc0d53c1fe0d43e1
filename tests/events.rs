use rustarok::attributes::CharAttributes;
use rustarok::char_state::{
    apply_intention, save_previous_state, CharState, CharacterStateComponent, EntityTarget,
    PlayerIntention, SystemEvent, Team,
};
use rustarok::collisions::{Collision, ContactEvent, Proximity, ProximityEvent, WorldCollisions};
use rustarok::coords::{SpriteBoundingRect, WorldCoords};
use rustarok::skill::CharEntityId;

fn character() -> CharacterStateComponent {
    CharacterStateComponent::new("npc".to_string(), Team::Neutral, 3, CharAttributes::zero(), 0, 0)
}

#[test]
fn proximity_events_track_intersections() {
    let mut w = WorldCollisions::new();
    let enter = ProximityEvent {
        collider1: 10,
        collider2: 20,
        collider1_is_character: false,
        prev_status: Proximity::WithinMargin,
        new_status: Proximity::Intersecting,
    };
    w.apply_proximity_event(&enter);
    assert_eq!(w.len(), 1);
    assert_eq!(w.get(10, 20), Some(Collision { character_coll_handle: 20, other_coll_handle: 10 }));
    assert_eq!(w.get(20, 10), None);
    let near = ProximityEvent { prev_status: Proximity::Disjoint, new_status: Proximity::WithinMargin, ..enter };
    w.apply_proximity_event(&near);
    assert_eq!(w.len(), 1);
    let leave = ProximityEvent { prev_status: Proximity::Intersecting, new_status: Proximity::WithinMargin, ..enter };
    w.apply_proximity_event(&leave);
    assert_eq!(w.len(), 0);
    w.apply_proximity_event(&enter);
    let gone = ProximityEvent { prev_status: Proximity::WithinMargin, new_status: Proximity::Disjoint, ..enter };
    w.apply_proximity_event(&gone);
    assert_eq!(w.get(10, 20), None);
}

#[test]
fn contact_events_track_contacts() {
    let mut w = WorldCollisions::new();
    w.apply_contact_event(&ContactEvent::Started { collider1: 1, collider2: u64::MAX, collider1_is_character: true });
    assert_eq!(w.get(1, u64::MAX), Some(Collision { character_coll_handle: 1, other_coll_handle: u64::MAX }));
    w.apply_contact_event(&ContactEvent::Started { collider1: u64::MAX, collider2: 1, collider1_is_character: false });
    assert_eq!(w.len(), 2);
    w.apply_contact_event(&ContactEvent::Stopped { collider1: 1, collider2: u64::MAX });
    assert_eq!(w.len(), 1);
    assert_eq!(w.get(u64::MAX, 1), Some(Collision { character_coll_handle: 1, other_coll_handle: u64::MAX }));
}

#[test]
fn state_changes_are_reported_once() {
    let mut c = character();
    let mut events = Vec::new();
    let me = CharEntityId(4);
    save_previous_state(&mut c, me, &CharState::Idle, 10, &mut events);
    assert!(events.is_empty());
    let walking = CharState::Walking(WorldCoords::new(1, 2));
    save_previous_state(&mut c, me, &walking, 11, &mut events);
    assert_eq!(events, vec![SystemEvent::CharStatusChange(10, me, CharState::Idle, walking)]);
    save_previous_state(&mut c, me, &CharState::Walking(WorldCoords::new(5, 5)), 12, &mut events);
    assert_eq!(events.len(), 1);
    assert_eq!(*c.prev_state(), CharState::Walking(WorldCoords::new(5, 5)));
}

#[test]
fn intentions_set_targets() {
    let mut c = character();
    apply_intention(&mut c, Some(PlayerIntention::MoveTo(WorldCoords::new(3, 4))));
    assert_eq!(c.target, Some(EntityTarget::Pos(WorldCoords::new(3, 4))));
    apply_intention(&mut c, None);
    assert_eq!(c.target, Some(EntityTarget::Pos(WorldCoords::new(3, 4))));
    apply_intention(&mut c, Some(PlayerIntention::Attack(CharEntityId(8))));
    assert_eq!(c.target, Some(EntityTarget::OtherEntity(CharEntityId(8))));
    apply_intention(&mut c, Some(PlayerIntention::AttackTowards(WorldCoords::new(0, 9))));
    assert_eq!(c.target, Some(EntityTarget::PosWhileAttacking(WorldCoords::new(0, 9), None)));
    apply_intention(&mut c, Some(PlayerIntention::MoveTowardsMouse(WorldCoords::new(7, 7))));
    assert_eq!(c.target, Some(EntityTarget::Pos(WorldCoords::new(7, 7))));
}

#[test]
fn sprite_rects_merge_to_cover_both() {
    let mut a = SpriteBoundingRect { bottom_left: [10, 50], top_right: [40, 5] };
    let b = SpriteBoundingRect { bottom_left: [0, 60], top_right: [30, 20] };
    a.merge(&b);
    assert_eq!(a.bottom_left, [0, 60]);
    assert_eq!(a.top_right, [40, 5]);
}

#[test]
fn squared_distance_is_exact() {
    let a = WorldCoords::new(i32::MIN, i32::MIN);
    let b = WorldCoords::new(i32::MAX, i32::MAX);
    let d = (u32::MAX as u128) * (u32::MAX as u128) * 2;
    assert_eq!(a.distance_sq(&b), d);
    assert_eq!(WorldCoords::new(0, 0).distance_sq(&WorldCoords::new(3, -4)), 25);
}
