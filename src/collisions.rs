use vstd::prelude::*;
use vstd::std_specs::hash::group_hash_axioms;

use std::collections::HashMap;

verus! {

broadcast use group_hash_axioms;

/// A touching or overlapping pair of colliders, the character's first.
#[derive(Copy, Clone, Debug, PartialEq, Eq, Structural)]
pub struct Collision {
    pub character_coll_handle: u64,
    pub other_coll_handle: u64,
}

/// How close two colliders are, as the physics engine reports it.
#[derive(Copy, Clone, Debug, PartialEq, Eq, Structural)]
pub enum Proximity {
    Disjoint,
    WithinMargin,
    Intersecting,
}

/// A change of proximity between two colliders (sensors).
#[derive(Copy, Clone, Debug, PartialEq, Eq, Structural)]
pub struct ProximityEvent {
    pub collider1: u64,
    pub collider2: u64,
    /// The first collider belongs to a character.
    pub collider1_is_character: bool,
    pub prev_status: Proximity,
    pub new_status: Proximity,
}

/// A contact between two solid colliders started or stopped.
#[derive(Copy, Clone, Debug, PartialEq, Eq, Structural)]
pub enum ContactEvent {
    Started { collider1: u64, collider2: u64, collider1_is_character: bool },
    Stopped { collider1: u64, collider2: u64 },
}

/// The key of the pair `(a, b)`: `a` in the high 64 bits, `b` in the low.
pub open spec fn pair_key(a: u64, b: u64) -> u128 {
    (a * 0x1_0000_0000_0000_0000 + b) as u128
}

fn make_key(a: u64, b: u64) -> (r: u128)
    ensures
        r == pair_key(a, b),
{
    assert(a * 0x1_0000_0000_0000_0000 + b <= 0xffff_ffff_ffff_ffff * 0x1_0000_0000_0000_0000
        + 0xffff_ffff_ffff_ffff) by (nonlinear_arith)
        requires
            a <= 0xffff_ffff_ffff_ffff,
            b <= 0xffff_ffff_ffff_ffff,
    ;
    a as u128 * 0x1_0000_0000_0000_0000 + b as u128
}

/// The collision of `c1` and `c2`, oriented so that the character comes first.
pub open spec fn oriented(c1: u64, c2: u64, c1_is_character: bool) -> Collision {
    if c1_is_character {
        Collision { character_coll_handle: c1, other_coll_handle: c2 }
    } else {
        Collision { character_coll_handle: c2, other_coll_handle: c1 }
    }
}

/// The collisions standing since the previous step, by collider pair.
#[derive(Clone, Debug)]
pub struct WorldCollisions {
    collisions: HashMap<u128, Collision>,
}

impl View for WorldCollisions {
    type V = Map<u128, Collision>;

    closed spec fn view(&self) -> Map<u128, Collision> {
        self.collisions@
    }
}

impl WorldCollisions {
    pub fn new() -> (r: WorldCollisions)
        ensures
            r@ == Map::<u128, Collision>::empty(),
    {
        WorldCollisions { collisions: HashMap::new() }
    }

    /// The collision of the pair `(collider1, collider2)`, if one stands.
    pub fn get(&self, collider1: u64, collider2: u64) -> (r: Option<Collision>)
        ensures
            r == if self@.contains_key(pair_key(collider1, collider2)) {
                Some(self@[pair_key(collider1, collider2)])
            } else {
                None
            },
    {
        let key = make_key(collider1, collider2);
        match self.collisions.get(&key) {
            Some(c) => Some(*c),
            None => None,
        }
    }

    pub fn len(&self) -> (r: usize)
        ensures
            r == self@.len(),
    {
        self.collisions.len()
    }

    fn insert(&mut self, collider1: u64, collider2: u64, collision: Collision)
        ensures
            final(self)@ == old(self)@.insert(pair_key(collider1, collider2), collision),
    {
        let key = make_key(collider1, collider2);
        self.collisions.insert(key, collision);
    }

    fn remove(&mut self, collider1: u64, collider2: u64)
        ensures
            final(self)@ == old(self)@.remove(pair_key(collider1, collider2)),
    {
        let key = make_key(collider1, collider2);
        self.collisions.remove(&key);
    }

    /// Follows a proximity change: entering records the pair, leaving
    /// (to disjoint, or from intersecting to within margin) forgets it.
    pub fn apply_proximity_event(&mut self, event: &ProximityEvent)
        ensures
            final(self)@ == match event.new_status {
                Proximity::Intersecting => old(self)@.insert(
                    pair_key(event.collider1, event.collider2),
                    oriented(event.collider1, event.collider2, event.collider1_is_character),
                ),
                Proximity::WithinMargin => if event.prev_status == Proximity::Intersecting {
                    old(self)@.remove(pair_key(event.collider1, event.collider2))
                } else {
                    old(self)@
                },
                Proximity::Disjoint => old(self)@.remove(pair_key(event.collider1, event.collider2)),
            },
    {
        match event.new_status {
            Proximity::Intersecting => {
                let collision = if event.collider1_is_character {
                    Collision { character_coll_handle: event.collider1, other_coll_handle: event.collider2 }
                } else {
                    Collision { character_coll_handle: event.collider2, other_coll_handle: event.collider1 }
                };
                self.insert(event.collider1, event.collider2, collision);
            },
            Proximity::WithinMargin => {
                if event.prev_status == Proximity::Intersecting {
                    self.remove(event.collider1, event.collider2);
                }
            },
            Proximity::Disjoint => {
                self.remove(event.collider1, event.collider2);
            },
        }
    }

    /// Follows a contact change: a start records the pair, a stop forgets it.
    pub fn apply_contact_event(&mut self, event: &ContactEvent)
        ensures
            final(self)@ == match *event {
                ContactEvent::Started { collider1, collider2, collider1_is_character } => old(
                    self,
                )@.insert(
                    pair_key(collider1, collider2),
                    oriented(collider1, collider2, collider1_is_character),
                ),
                ContactEvent::Stopped { collider1, collider2 } => old(self)@.remove(
                    pair_key(collider1, collider2),
                ),
            },
    {
        match event {
            ContactEvent::Started { collider1, collider2, collider1_is_character } => {
                let collision = if *collider1_is_character {
                    Collision { character_coll_handle: *collider1, other_coll_handle: *collider2 }
                } else {
                    Collision { character_coll_handle: *collider2, other_coll_handle: *collider1 }
                };
                self.insert(*collider1, *collider2, collision);
            },
            ContactEvent::Stopped { collider1, collider2 } => {
                self.remove(*collider1, *collider2);
            },
        }
    }
}

} // verus!
