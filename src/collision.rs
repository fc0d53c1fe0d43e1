use vstd::prelude::*;

use crate::coords::WorldCoords;
use crate::status::bit_set;

verus! {

/// Body categories of the physics world.
#[derive(Copy, Clone, Debug, PartialEq, Eq, Structural)]
pub enum CollisionGroup {
    StaticModel,
    LeftPlayer,
    RightPlayer,
    NeutralPlayerPlayer,
    NonCollidablePlayer,
    Minion,
    Guard,
    Turret,
    LeftBarricade,
    RightBarricade,
    SkillArea,
}

impl CollisionGroup {
    pub open spec fn index_spec(self) -> u32 {
        match self {
            CollisionGroup::StaticModel => 0,
            CollisionGroup::LeftPlayer => 1,
            CollisionGroup::RightPlayer => 2,
            CollisionGroup::NeutralPlayerPlayer => 3,
            CollisionGroup::NonCollidablePlayer => 4,
            CollisionGroup::Minion => 5,
            CollisionGroup::Guard => 6,
            CollisionGroup::Turret => 7,
            CollisionGroup::LeftBarricade => 8,
            CollisionGroup::RightBarricade => 9,
            CollisionGroup::SkillArea => 10,
        }
    }

    /// The category's bit in a membership mask.
    pub fn index(&self) -> (r: u32)
        ensures
            r == self.index_spec(),
            r < 32,
    {
        match self {
            CollisionGroup::StaticModel => 0,
            CollisionGroup::LeftPlayer => 1,
            CollisionGroup::RightPlayer => 2,
            CollisionGroup::NeutralPlayerPlayer => 3,
            CollisionGroup::NonCollidablePlayer => 4,
            CollisionGroup::Minion => 5,
            CollisionGroup::Guard => 6,
            CollisionGroup::Turret => 7,
            CollisionGroup::LeftBarricade => 8,
            CollisionGroup::RightBarricade => 9,
            CollisionGroup::SkillArea => 10,
        }
    }
}

/// `mask` with the bit of `group` set to `on`.
pub fn modify_membership(mask: u32, group: CollisionGroup, on: bool) -> (r: u32)
    ensures
        forall|j: int|
            0 <= j < 32 ==> #[trigger] bit_set(r, j) == if j == group.index_spec() {
                on
            } else {
                bit_set(mask, j)
            },
{
    let i = group.index();
    let r = if on {
        mask | (1u32 << i)
    } else {
        mask & !(1u32 << i)
    };
    assert forall|j: int| 0 <= j < 32 implies #[trigger] bit_set(r, j) == if j == i {
        on
    } else {
        bit_set(mask, j)
    } by {
        lemma_modify_bit(mask, i, j as u32);
    }
    r
}

/// Setting or clearing bit `i` changes bit `j` only where `j == i`.
pub(crate) proof fn lemma_modify_bit(mask: u32, i: u32, j: u32)
    requires
        i < 32,
        j < 32,
    ensures
        (((mask | (1u32 << i)) >> j) & 1u32 == 1u32) == (i == j || ((mask >> j) & 1u32) == 1u32),
        (((mask & !(1u32 << i)) >> j) & 1u32 == 1u32) == (i != j && ((mask >> j) & 1u32) == 1u32),
{
    assert((((mask | (1u32 << i)) >> j) & 1u32 == 1u32) == (i == j || ((mask >> j) & 1u32) == 1u32))
        by (bit_vector)
        requires
            i < 32,
            j < 32,
    ;
    assert((((mask & !(1u32 << i)) >> j) & 1u32 == 1u32) == (i != j && ((mask >> j) & 1u32) == 1u32))
        by (bit_vector)
        requires
            i < 32,
            j < 32,
    ;
}

/// Categories that a character body of this category is built with.
/// Terrain and skill areas are not characters.
pub open spec fn is_character_group(g: CollisionGroup) -> bool {
    !(g is StaticModel) && !(g is SkillArea)
}

/// The categories that a body of category `g` must not collide with.
pub open spec fn blacklist_spec(g: CollisionGroup) -> Seq<CollisionGroup> {
    match g {
        CollisionGroup::Guard => seq![
            CollisionGroup::Minion,
            CollisionGroup::NonCollidablePlayer,
            CollisionGroup::StaticModel,
            CollisionGroup::LeftPlayer,
            CollisionGroup::RightPlayer,
            CollisionGroup::Guard,
            CollisionGroup::SkillArea,
            CollisionGroup::Turret,
            CollisionGroup::NeutralPlayerPlayer,
            CollisionGroup::LeftBarricade,
            CollisionGroup::RightBarricade,
        ],
        CollisionGroup::LeftPlayer | CollisionGroup::RightPlayer
        | CollisionGroup::NeutralPlayerPlayer => seq![
            CollisionGroup::Minion,
            CollisionGroup::NonCollidablePlayer,
            CollisionGroup::Guard,
            CollisionGroup::Turret,
        ],
        CollisionGroup::NonCollidablePlayer | CollisionGroup::Turret => seq![
            CollisionGroup::Minion,
            CollisionGroup::NonCollidablePlayer,
            CollisionGroup::StaticModel,
            CollisionGroup::LeftPlayer,
            CollisionGroup::RightPlayer,
            CollisionGroup::Guard,
            CollisionGroup::Turret,
            CollisionGroup::NeutralPlayerPlayer,
        ],
        CollisionGroup::Minion => seq![
            CollisionGroup::LeftPlayer,
            CollisionGroup::RightPlayer,
            CollisionGroup::StaticModel,
            CollisionGroup::NonCollidablePlayer,
            CollisionGroup::Turret,
            CollisionGroup::NeutralPlayerPlayer,
        ],
        CollisionGroup::LeftBarricade => seq![
            CollisionGroup::LeftPlayer,
            CollisionGroup::Minion,
            CollisionGroup::NonCollidablePlayer,
            CollisionGroup::Guard,
            CollisionGroup::Turret,
        ],
        CollisionGroup::RightBarricade => seq![
            CollisionGroup::RightPlayer,
            CollisionGroup::Minion,
            CollisionGroup::NonCollidablePlayer,
            CollisionGroup::Guard,
            CollisionGroup::Turret,
        ],
        CollisionGroup::StaticModel | CollisionGroup::SkillArea => seq![],
    }
}

/// The categories that a character body of category `g` must not collide with.
pub fn blacklist(g: CollisionGroup) -> (r: Vec<CollisionGroup>)
    requires
        is_character_group(g),
    ensures
        r@ == blacklist_spec(g),
{
    let r = match g {
        CollisionGroup::Guard => vec![
            CollisionGroup::Minion,
            CollisionGroup::NonCollidablePlayer,
            CollisionGroup::StaticModel,
            CollisionGroup::LeftPlayer,
            CollisionGroup::RightPlayer,
            CollisionGroup::Guard,
            CollisionGroup::SkillArea,
            CollisionGroup::Turret,
            CollisionGroup::NeutralPlayerPlayer,
            CollisionGroup::LeftBarricade,
            CollisionGroup::RightBarricade,
        ],
        CollisionGroup::LeftPlayer | CollisionGroup::RightPlayer
        | CollisionGroup::NeutralPlayerPlayer => vec![
            CollisionGroup::Minion,
            CollisionGroup::NonCollidablePlayer,
            CollisionGroup::Guard,
            CollisionGroup::Turret,
        ],
        CollisionGroup::NonCollidablePlayer | CollisionGroup::Turret => vec![
            CollisionGroup::Minion,
            CollisionGroup::NonCollidablePlayer,
            CollisionGroup::StaticModel,
            CollisionGroup::LeftPlayer,
            CollisionGroup::RightPlayer,
            CollisionGroup::Guard,
            CollisionGroup::Turret,
            CollisionGroup::NeutralPlayerPlayer,
        ],
        CollisionGroup::Minion => vec![
            CollisionGroup::LeftPlayer,
            CollisionGroup::RightPlayer,
            CollisionGroup::StaticModel,
            CollisionGroup::NonCollidablePlayer,
            CollisionGroup::Turret,
            CollisionGroup::NeutralPlayerPlayer,
        ],
        CollisionGroup::LeftBarricade => vec![
            CollisionGroup::LeftPlayer,
            CollisionGroup::Minion,
            CollisionGroup::NonCollidablePlayer,
            CollisionGroup::Guard,
            CollisionGroup::Turret,
        ],
        CollisionGroup::RightBarricade => vec![
            CollisionGroup::RightPlayer,
            CollisionGroup::Minion,
            CollisionGroup::NonCollidablePlayer,
            CollisionGroup::Guard,
            CollisionGroup::Turret,
        ],
        CollisionGroup::StaticModel | CollisionGroup::SkillArea => vec![],
    };
    assert(r@ =~= blacklist_spec(g));
    r
}

/// How the physics engine moves a body.
#[derive(Copy, Clone, Debug, PartialEq, Eq, Structural)]
pub enum BodyStatus {
    Disabled,
    Static,
    Dynamic,
    Kinematic,
}

/// The collider shape of a character, in thousandths of a world unit.
#[derive(Copy, Clone, Debug, PartialEq, Eq, Structural)]
pub enum ColliderShape {
    Circle { radius: u32 },
    Rectangle { width: u32, height: u32 },
}

/// The physics description of a character, filled in step by step and
/// handed to the physics engine.
#[derive(Clone, Debug)]
pub struct CharPhysicsEntityBuilder {
    pub pos2d: WorldCoords,
    pub self_group: CollisionGroup,
    pub collider_shape: ColliderShape,
    pub blacklist_groups: Vec<CollisionGroup>,
    pub body_status: BodyStatus,
}

impl CharPhysicsEntityBuilder {
    /// A dynamic unit circle at `pos2d`, in no character group yet.
    pub fn new(pos2d: WorldCoords) -> (r: CharPhysicsEntityBuilder)
        ensures
            r.pos2d == pos2d,
            r.self_group == CollisionGroup::StaticModel,
            r.collider_shape == (ColliderShape::Circle { radius: 1000 }),
            r.blacklist_groups@.len() == 0,
            r.body_status == BodyStatus::Dynamic,
    {
        CharPhysicsEntityBuilder {
            pos2d,
            self_group: CollisionGroup::StaticModel,
            collider_shape: ColliderShape::Circle { radius: 1000 },
            blacklist_groups: Vec::new(),
            body_status: BodyStatus::Dynamic,
        }
    }

    /// Puts the body into `self_group`, with that group's blacklist.
    pub fn collision_group(self, self_group: CollisionGroup) -> (r: CharPhysicsEntityBuilder)
        requires
            is_character_group(self_group),
        ensures
            r.self_group == self_group,
            r.blacklist_groups@ == blacklist_spec(self_group),
            r.pos2d == self.pos2d,
            r.collider_shape == self.collider_shape,
            r.body_status == self.body_status,
    {
        let mut b = self;
        b.self_group = self_group;
        b.blacklist_groups = blacklist(self_group);
        b
    }

    pub fn body_status(self, body_status: BodyStatus) -> (r: CharPhysicsEntityBuilder)
        ensures
            r.body_status == body_status,
            r.pos2d == self.pos2d,
            r.self_group == self.self_group,
            r.collider_shape == self.collider_shape,
            r.blacklist_groups@ == self.blacklist_groups@,
    {
        let mut b = self;
        b.body_status = body_status;
        b
    }

    pub fn circle(self, radius: u32) -> (r: CharPhysicsEntityBuilder)
        ensures
            r.collider_shape == (ColliderShape::Circle { radius }),
            r.pos2d == self.pos2d,
            r.self_group == self.self_group,
            r.body_status == self.body_status,
            r.blacklist_groups@ == self.blacklist_groups@,
    {
        let mut b = self;
        b.collider_shape = ColliderShape::Circle { radius };
        b
    }

    pub fn rectangle(self, width: u32, height: u32) -> (r: CharPhysicsEntityBuilder)
        ensures
            r.collider_shape == (ColliderShape::Rectangle { width, height }),
            r.pos2d == self.pos2d,
            r.self_group == self.self_group,
            r.body_status == self.body_status,
            r.blacklist_groups@ == self.blacklist_groups@,
    {
        let mut b = self;
        b.collider_shape = ColliderShape::Rectangle { width, height };
        b
    }
}

} // verus!
