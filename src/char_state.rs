use vstd::prelude::*;

use crate::attributes::{
    Attribute, BonusDurations, CharAttributeModifier, CharAttributes, CharAttributesBonuses,
};
use crate::collision::{BodyStatus, CollisionGroup, modify_membership};
use crate::coords::WorldCoords;
use crate::skill::{CharEntityId, SKILL_COUNT, Skills};
use crate::status::{
    SimulationQueues, Statuses, area_attacks_of_all, bit_set, area_statuses_of_all, lemma_mask_removal_keeps_unexpired,
    mods_of, unexpired,
};
use crate::time::{ElapsedTime, MAX_SIMULATION_MILLIS};

verus! {

#[derive(Copy, Clone, Debug, PartialEq, Eq, Structural)]
pub enum Team {
    Left,
    Right,
    Neutral,
}

impl Team {
    /// The collision category of this team's players.
    pub fn get_collision_group(&self) -> (r: CollisionGroup)
        ensures
            r == match self {
                Team::Left => CollisionGroup::LeftPlayer,
                Team::Right => CollisionGroup::RightPlayer,
                Team::Neutral => CollisionGroup::NeutralPlayerPlayer,
            },
    {
        match self {
            Team::Left => CollisionGroup::LeftPlayer,
            Team::Right => CollisionGroup::RightPlayer,
            Team::Neutral => CollisionGroup::NeutralPlayerPlayer,
        }
    }
}

/// What a character is heading for.
#[derive(Copy, Clone, Debug, PartialEq, Eq, Structural)]
pub enum EntityTarget {
    OtherEntity(CharEntityId),
    Pos(WorldCoords),
    PosWhileAttacking(WorldCoords, Option<CharEntityId>),
}

/// A cast in progress.
#[derive(Copy, Clone, Debug, PartialEq, Eq, Structural)]
pub struct CastingSkillData {
    pub target_area_pos: Option<WorldCoords>,
    /// From the caster toward the target, as it was when the cast started.
    pub char_to_skill_dir_when_casted: WorldCoords,
    pub target_entity: Option<CharEntityId>,
    pub cast_started: ElapsedTime,
    pub cast_ends: ElapsedTime,
    pub can_move: bool,
    pub skill: Skills,
}

/// The high-level state of a character.
#[derive(Copy, Clone, Debug, PartialEq, Eq, Structural)]
pub enum CharState {
    Idle,
    Walking(WorldCoords),
    StandBy,
    Attacking { target: CharEntityId, damage_occurs_at: ElapsedTime },
    ReceivingDamage,
    Dead,
    CastingSkill(CastingSkillData),
}

/// The state as the client side of the simulation names it.
pub type ClientCharState = CharState;

impl CharState {
    pub fn is_walking(&self) -> (r: bool)
        ensures
            r == (self is Walking),
    {
        match self {
            CharState::Walking(_) => true,
            _ => false,
        }
    }

    pub fn is_alive(&self) -> (r: bool)
        ensures
            r == !(self is Dead),
    {
        match self {
            CharState::Dead => false,
            _ => true,
        }
    }

    pub fn is_dead(&self) -> (r: bool)
        ensures
            r == (self is Dead),
    {
        match self {
            CharState::Dead => true,
            _ => false,
        }
    }

    pub open spec fn kind(self) -> int {
        match self {
            CharState::Idle => 0,
            CharState::Walking(_) => 1,
            CharState::StandBy => 2,
            CharState::Attacking { .. } => 3,
            CharState::ReceivingDamage => 4,
            CharState::Dead => 5,
            CharState::CastingSkill(_) => 6,
        }
    }

    fn kind_of(&self) -> (r: u8)
        ensures
            r == self.kind(),
    {
        match self {
            CharState::Idle => 0,
            CharState::Walking(_) => 1,
            CharState::StandBy => 2,
            CharState::Attacking { .. } => 3,
            CharState::ReceivingDamage => 4,
            CharState::Dead => 5,
            CharState::CastingSkill(_) => 6,
        }
    }

    /// Both states are of the same variant, whatever their data.
    pub fn discriminant_eq(&self, other: &CharState) -> (r: bool)
        ensures
            r == (self.kind() == other.kind()),
    {
        self.kind_of() == other.kind_of()
    }
}

/// Recomputing the attributes met a modifier that does not suit its
/// attribute, or one that overflows it: the status table is misconfigured.
#[derive(Copy, Clone, Debug, PartialEq, Eq, Structural)]
pub enum RecalcError {
    InvalidModifiers,
}

/// The simulation state of one character.
#[derive(Clone, Debug)]
pub struct CharacterStateComponent {
    pub name: String,
    pub team: Team,
    pub job_id: u32,
    pub target: Option<EntityTarget>,
    pub prev_state: CharState,
    pub attack_delay_ends_at: ElapsedTime,
    /// For each skill, by `Skills::index`, when it may next be cast.
    pub skill_cast_allowed_at: Vec<ElapsedTime>,
    pub cannot_control_until: ElapsedTime,
    pub hp: i32,
    pub base_attributes: CharAttributes,
    pub calculated_attribs: CharAttributes,
    pub attrib_bonuses: CharAttributesBonuses,
    pub statuses: Statuses,
    pub body_handle: u64,
    pub collider_handle: u64,
}

/// The modifier lists that `statuses` contribute.
pub open spec fn status_mods(statuses: Seq<crate::status::Status>) -> spec_fn(Attribute) -> Seq<
    CharAttributeModifier,
> {
    |a: Attribute| mods_of(statuses, a)
}

impl CharacterStateComponent {
    /// The status list has a bit per status and the cooldown table an entry per skill.
    pub open spec fn wf(&self) -> bool {
        &&& self.statuses.wf()
        &&& self.skill_cast_allowed_at@.len() == SKILL_COUNT
    }

    /// Calculated attributes are the base ones with every status applied.
    pub open spec fn attribs_up_to_date(&self) -> bool {
        self.base_attributes.applied_mods(status_mods(self.statuses@), self.calculated_attribs)
    }

    pub fn new(
        name: String,
        team: Team,
        job_id: u32,
        base_attributes: CharAttributes,
        body_handle: u64,
        collider_handle: u64,
    ) -> (r: CharacterStateComponent)
        ensures
            r.wf(),
            r.name@ == name@,
            r.team == team,
            r.job_id == job_id,
            r.target is None,
            r.prev_state == CharState::Idle,
            r.attack_delay_ends_at.0 == 0,
            r.cannot_control_until.0 == 0,
            forall|i: int| 0 <= i < SKILL_COUNT ==> (#[trigger] r.skill_cast_allowed_at@[i]).0 == 0,
            r.hp == base_attributes.max_hp,
            r.base_attributes == base_attributes,
            r.calculated_attribs == base_attributes,
            r.statuses@.len() == 0,
            forall|a: Attribute| #[trigger] r.attrib_bonuses.durations.get(a) is None,
            r.body_handle == body_handle,
            r.collider_handle == collider_handle,
    {
        let mut cooldowns: Vec<ElapsedTime> = Vec::new();
        let mut i: usize = 0;
        while i < SKILL_COUNT
            invariant
                0 <= i <= SKILL_COUNT,
                cooldowns@.len() == i,
                forall|j: int| 0 <= j < i ==> (#[trigger] cooldowns@[j]).0 == 0,
            decreases SKILL_COUNT - i,
        {
            cooldowns.push(ElapsedTime(0));
            i = i + 1;
        }
        CharacterStateComponent {
            name,
            team,
            job_id,
            target: None,
            prev_state: CharState::Idle,
            attack_delay_ends_at: ElapsedTime(0),
            skill_cast_allowed_at: cooldowns,
            cannot_control_until: ElapsedTime(0),
            hp: base_attributes.max_hp,
            base_attributes,
            calculated_attribs: base_attributes,
            attrib_bonuses: CharAttributesBonuses {
                attrs: CharAttributes::zero(),
                durations: BonusDurations::with_invalid_times(),
            },
            statuses: Statuses::new(),
            body_handle,
            collider_handle,
        }
    }

    pub fn base_attributes(&self) -> (r: &CharAttributes)
        ensures
            *r == self.base_attributes,
    {
        &self.base_attributes
    }

    pub fn calculated_attribs(&self) -> (r: &CharAttributes)
        ensures
            *r == self.calculated_attribs,
    {
        &self.calculated_attribs
    }

    pub fn attrib_bonuses(&self) -> (r: &CharAttributesBonuses)
        ensures
            *r == self.attrib_bonuses,
    {
        &self.attrib_bonuses
    }

    pub fn get_status_count(&self) -> (r: usize)
        ensures
            r == self.statuses@.len(),
    {
        self.statuses.count()
    }

    /// Rebuilds the calculated attributes from the base ones and every
    /// status, once. Fails, changing nothing, when a status's modifier does
    /// not suit its attribute or overflows it.
    pub fn recalc_attribs_based_on_statuses(&mut self) -> (r: Result<(), RecalcError>)
        ensures
            r is Ok <==> old(self).base_attributes.mods_fit(status_mods(old(self).statuses@)),
            r is Ok ==> final(self).attribs_up_to_date(),
            r is Ok ==> final(self).attrib_bonuses.durations == crate::status::durations_of(
                old(self).statuses@,
            ),
            r is Err ==> final(self).calculated_attribs == old(self).calculated_attribs,
            r is Err ==> final(self).attrib_bonuses == old(self).attrib_bonuses,
            final(self).statuses@ == old(self).statuses@,
            final(self).base_attributes == old(self).base_attributes,
            final(self).skill_cast_allowed_at@ == old(self).skill_cast_allowed_at@,
            final(self).cannot_control_until == old(self).cannot_control_until,
            final(self).hp == old(self).hp,
    {
        let collector = self.statuses.calc_attributes();
        proof {
            assert(self.base_attributes.mods_fit(status_mods(self.statuses@))
                == self.base_attributes.modifiers_fit(collector)) by {
                assert(status_mods(self.statuses@) =~= (|a: Attribute| collector.mods(a)));
            }
        }
        match self.base_attributes.try_apply(&collector) {
            Some(calculated) => {
                proof {
                    assert(status_mods(self.statuses@) =~= (|a: Attribute| collector.mods(a)));
                }
                self.attrib_bonuses = calculated.differences(&self.base_attributes, &collector);
                self.calculated_attribs = calculated;
                proof {
                    crate::status::lemma_durations_of_collected(self.statuses@, collector);
                }
                Ok(())
            },
            None => Err(RecalcError::InvalidModifiers),
        }
    }

    /// Replaces the base attributes and recomputes.
    pub fn update_base_attributes(&mut self, base_attributes: CharAttributes) -> (r: Result<(), RecalcError>)
        ensures
            final(self).base_attributes == base_attributes,
            r is Ok <==> base_attributes.mods_fit(status_mods(old(self).statuses@)),
            r is Ok ==> final(self).attribs_up_to_date(),
            final(self).statuses@ == old(self).statuses@,
            final(self).skill_cast_allowed_at@ == old(self).skill_cast_allowed_at@,
    {
        self.base_attributes = base_attributes;
        self.recalc_attribs_based_on_statuses()
    }

    /// One tick of every status: expired ones are removed in a single pass
    /// and, if any was, the attributes are recomputed once. Answers whether
    /// a recompute took place.
    pub fn update_statuses(
        &mut self,
        self_char_id: CharEntityId,
        char_pos: WorldCoords,
        now: ElapsedTime,
        queues: &mut SimulationQueues,
    ) -> (r: Result<bool, RecalcError>)
        requires
            old(self).wf(),
            0 <= now.0 <= MAX_SIMULATION_MILLIS,
        ensures
            final(self).wf(),
            final(self).statuses@ == unexpired(old(self).statuses@, now),
            r == Ok::<bool, RecalcError>(false) <==> (forall|i: int|
                0 <= i < old(self).statuses@.len() ==> !(#[trigger] old(self).statuses@[i]).expires(
                    now,
                )),
            r == Ok::<bool, RecalcError>(false) ==> final(self).calculated_attribs
                == old(self).calculated_attribs,
            r == Ok::<bool, RecalcError>(true) ==> final(self).attribs_up_to_date(),
            r is Err <==> (exists|i: int|
                0 <= i < old(self).statuses@.len() && (#[trigger] old(self).statuses@[i]).expires(
                    now,
                )) && !old(self).base_attributes.mods_fit(status_mods(final(self).statuses@)),
            final(self).base_attributes == old(self).base_attributes,
            final(self).skill_cast_allowed_at@ == old(self).skill_cast_allowed_at@,
            final(self).cannot_control_until == old(self).cannot_control_until,
            final(self).hp == old(self).hp,
            final(queues).area_attacks@ == old(queues).area_attacks@ + area_attacks_of_all(
                old(self).statuses@,
                char_pos,
                now,
            ),
            final(queues).apply_area_statuses@ == old(queues).apply_area_statuses@
                + area_statuses_of_all(old(self).statuses@, self_char_id, char_pos, now),
            final(queues).apply_statuses@ == old(queues).apply_statuses@,
    {
        let mask = self.statuses.update(self_char_id, char_pos, now, queues);
        proof {
            lemma_mask_removal_keeps_unexpired(self.statuses@, mask, now);
        }
        if mask != 0 {
            self.statuses.remove_statuses(mask);
            match self.recalc_attribs_based_on_statuses() {
                Ok(()) => Ok(true),
                Err(e) => Err(e),
            }
        } else {
            self.statuses.remove_statuses(mask);
            proof {
                assert(unexpired(old(self).statuses@, now) =~= old(self).statuses@) by {
                    lemma_unexpired_all_kept(old(self).statuses@, now);
                }
            }
            Ok(false)
        }
    }

    /// The membership mask and body status that let the character pass
    /// through others: out of its team's category, into the non-collidable one.
    pub fn set_noncollidable(&self, membership: u32) -> (r: (u32, BodyStatus))
        ensures
            r.1 == BodyStatus::Kinematic,
            forall|j: int|
                0 <= j < 32 ==> #[trigger] bit_set(r.0, j) == if j
                    == CollisionGroup::NonCollidablePlayer.index_spec() {
                    true
                } else if j == self.team_group().index_spec() {
                    false
                } else {
                    bit_set(membership, j)
                },
    {
        let m = modify_membership(membership, self.team.get_collision_group(), false);
        (modify_membership(m, CollisionGroup::NonCollidablePlayer, true), BodyStatus::Kinematic)
    }

    /// The membership mask and body status of a solid character again.
    pub fn set_collidable(&self, membership: u32) -> (r: (u32, BodyStatus))
        ensures
            r.1 == BodyStatus::Dynamic,
            forall|j: int|
                0 <= j < 32 ==> #[trigger] bit_set(r.0, j) == if j
                    == CollisionGroup::NonCollidablePlayer.index_spec() {
                    false
                } else if j == self.team_group().index_spec() {
                    true
                } else {
                    bit_set(membership, j)
                },
    {
        let m = modify_membership(membership, self.team.get_collision_group(), true);
        (modify_membership(m, CollisionGroup::NonCollidablePlayer, false), BodyStatus::Dynamic)
    }

    /// The collision category of the character's team.
    pub open spec fn team_group(&self) -> CollisionGroup {
        match self.team {
            Team::Left => CollisionGroup::LeftPlayer,
            Team::Right => CollisionGroup::RightPlayer,
            Team::Neutral => CollisionGroup::NeutralPlayerPlayer,
        }
    }

    /// The state differs in variant from the one saved last tick.
    pub fn state_type_has_changed(&self, state: &CharState) -> (r: bool)
        ensures
            r == (self.prev_state.kind() != state.kind()),
    {
        !self.prev_state.discriminant_eq(state)
    }

    pub fn save_prev_state(&mut self, state: &CharState)
        ensures
            final(self).prev_state == *state,
            final(self).statuses@ == old(self).statuses@,
            final(self).skill_cast_allowed_at@ == old(self).skill_cast_allowed_at@,
            final(self).calculated_attribs == old(self).calculated_attribs,
    {
        self.prev_state = *state;
    }

    pub fn prev_state(&self) -> (r: &CharState)
        ensures
            *r == self.prev_state,
    {
        &self.prev_state
    }

    /// The character is idle now and was casting last tick.
    pub fn went_from_casting_to_idle(&self, current_state: &CharState) -> (r: bool)
        ensures
            r == (current_state is Idle && self.prev_state is CastingSkill),
    {
        match current_state {
            CharState::Idle => match self.prev_state {
                CharState::CastingSkill(_) => true,
                _ => false,
            },
            _ => false,
        }
    }
}

/// Something the simulation reports to its observers.
#[derive(Copy, Clone, Debug, PartialEq, Eq, Structural)]
pub enum SystemEvent {
    /// At `tick` the character went from the first state to the second.
    CharStatusChange(u64, CharEntityId, CharState, CharState),
}

/// Saves `state` as the character's previous state for the next tick. When
/// its variant differs from the one saved before, reports the change as
/// having happened in the tick before `tick`, where it took place.
pub fn save_previous_state(
    char_comp: &mut CharacterStateComponent,
    char_id: CharEntityId,
    state: &CharState,
    tick: u64,
    events: &mut Vec<SystemEvent>,
)
    requires
        tick >= 1,
    ensures
        final(char_comp).prev_state == *state,
        final(events)@ == if old(char_comp).prev_state.kind() != state.kind() {
            old(events)@.push(
                SystemEvent::CharStatusChange(
                    (tick - 1) as u64,
                    char_id,
                    old(char_comp).prev_state,
                    *state,
                ),
            )
        } else {
            old(events)@
        },
        final(char_comp).statuses@ == old(char_comp).statuses@,
        final(char_comp).skill_cast_allowed_at@ == old(char_comp).skill_cast_allowed_at@,
        final(char_comp).calculated_attribs == old(char_comp).calculated_attribs,
{
    if char_comp.state_type_has_changed(state) {
        events.push(SystemEvent::CharStatusChange(tick - 1, char_id, char_comp.prev_state, *state));
    }
    char_comp.save_prev_state(state);
}

/// A player's order for the character it controls.
#[derive(Copy, Clone, Debug, PartialEq, Eq, Structural)]
pub enum PlayerIntention {
    MoveTo(WorldCoords),
    Attack(CharEntityId),
    MoveTowardsMouse(WorldCoords),
    AttackTowards(WorldCoords),
}

/// The target that an intention gives a character; none leaves it as it was.
pub open spec fn target_after(current: Option<EntityTarget>, intention: Option<PlayerIntention>) -> Option<EntityTarget> {
    match intention {
        Some(PlayerIntention::MoveTo(pos)) => Some(EntityTarget::Pos(pos)),
        Some(PlayerIntention::Attack(id)) => Some(EntityTarget::OtherEntity(id)),
        Some(PlayerIntention::MoveTowardsMouse(pos)) => Some(EntityTarget::Pos(pos)),
        Some(PlayerIntention::AttackTowards(pos)) => Some(EntityTarget::PosWhileAttacking(pos, None)),
        None => current,
    }
}

/// Turns the controller's intention into the character's target.
pub fn apply_intention(char_state: &mut CharacterStateComponent, intention: Option<PlayerIntention>)
    ensures
        final(char_state).target == target_after(old(char_state).target, intention),
        final(char_state).statuses@ == old(char_state).statuses@,
        final(char_state).skill_cast_allowed_at@ == old(char_state).skill_cast_allowed_at@,
        final(char_state).calculated_attribs == old(char_state).calculated_attribs,
        final(char_state).cannot_control_until == old(char_state).cannot_control_until,
{
    match intention {
        Some(PlayerIntention::MoveTo(pos)) => {
            char_state.target = Some(EntityTarget::Pos(pos));
        },
        Some(PlayerIntention::Attack(target_entity_id)) => {
            char_state.target = Some(EntityTarget::OtherEntity(target_entity_id));
        },
        Some(PlayerIntention::MoveTowardsMouse(pos)) => {
            char_state.target = Some(EntityTarget::Pos(pos));
        },
        Some(PlayerIntention::AttackTowards(pos)) => {
            char_state.target = Some(EntityTarget::PosWhileAttacking(pos, None));
        },
        None => {},
    }
}

/// Keeping every status that does not run out keeps them all when none does.
proof fn lemma_unexpired_all_kept(s: Seq<crate::status::Status>, now: ElapsedTime)
    requires
        forall|i: int| 0 <= i < s.len() ==> !(#[trigger] s[i]).expires(now),
    ensures
        unexpired(s, now) == s,
    decreases s.len(),
{
    if s.len() > 0 {
        let d = s.drop_last();
        assert forall|i: int| 0 <= i < d.len() implies !(#[trigger] d[i]).expires(now) by {
            assert(d[i] == s[i]);
        }
        lemma_unexpired_all_kept(d, now);
        assert(s.last() == s[s.len() - 1]);
        assert(d.push(s.last()) =~= s);
    }
}

} // verus!
