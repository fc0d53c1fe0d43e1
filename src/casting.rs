use vstd::prelude::*;

use crate::char_state::{CastingSkillData, CharState, CharacterStateComponent};
use crate::coords::WorldCoords;
use crate::percentage::tdiv;
use crate::skill::{
    CharEntityId, SkillCastingAttributes, SkillTargetType, Skills, casting_allowed_spec,
};
use crate::time::{ElapsedTime, MAX_SIMULATION_MILLIS};

verus! {

/// Whether the state lets a character start a cast.
pub open spec fn state_allows_cast(state: CharState) -> bool {
    state is Idle || state is Walking
}

/// Whether the state lets a character move.
pub open spec fn state_allows_move(state: CharState) -> bool {
    match state {
        CharState::Idle | CharState::Walking(_) | CharState::StandBy
        | CharState::ReceivingDamage => true,
        CharState::Attacking { .. } | CharState::Dead => false,
        CharState::CastingSkill(data) => data.can_move,
    }
}

pub open spec fn can_cast_spec(char_state: CharacterStateComponent, state: CharState, now: ElapsedTime) -> bool {
    &&& state_allows_cast(state)
    &&& char_state.cannot_control_until.0 <= now.0
    &&& forall|i: int|
        0 <= i < char_state.statuses@.len() ==> !(#[trigger] char_state.statuses@[i]).blocks_cast()
}

pub open spec fn can_move_spec(char_state: CharacterStateComponent, state: CharState, now: ElapsedTime) -> bool {
    &&& state_allows_move(state)
    &&& char_state.cannot_control_until.0 <= now.0
    &&& forall|i: int|
        0 <= i < char_state.statuses@.len() ==> !(#[trigger] char_state.statuses@[i]).blocks_move()
}

/// A cast may start: the state allows it, no earlier action holds control,
/// and no status forbids it.
pub fn can_char_cast(char_state: &CharacterStateComponent, state: &CharState, sys_time: ElapsedTime) -> (r: bool)
    ensures
        r == can_cast_spec(*char_state, *state, sys_time),
{
    let can_cast_by_state = match state {
        CharState::Idle => true,
        CharState::Walking(_) => true,
        _ => false,
    };
    can_cast_by_state && char_state.cannot_control_until.has_already_passed(sys_time)
        && char_state.statuses.can_cast()
}

/// The character may move: the state allows it (a cast only when the skill
/// permits), no earlier action holds control, and no status forbids it.
pub fn can_char_move(char_state: &CharacterStateComponent, state: &CharState, sys_time: ElapsedTime) -> (r: bool)
    ensures
        r == can_move_spec(*char_state, *state, sys_time),
{
    let can_move_by_state = match state {
        CharState::CastingSkill(casting_info) => casting_info.can_move,
        CharState::Idle => true,
        CharState::Walking(_) => true,
        CharState::StandBy => true,
        CharState::Attacking { .. } => false,
        CharState::ReceivingDamage => true,
        CharState::Dead => false,
    };
    can_move_by_state && char_state.cannot_control_until.has_already_passed(sys_time)
        && char_state.statuses.can_move()
}

/// Floor of the square root of `n`.
pub fn isqrt(n: u128) -> (r: u64)
    requires
        n < 0x4_0000_0000_0000_0000,
    ensures
        r * r <= n < (r + 1) * (r + 1),
{
    let mut lo: u128 = 0;
    let mut hi: u128 = 0x2_0000_0000;
    assert(hi * hi == 0x4_0000_0000_0000_0000) by (nonlinear_arith)
        requires
            hi == 0x2_0000_0000,
    ;
    while hi - lo > 1
        invariant
            lo < hi <= 0x2_0000_0000,
            lo * lo <= n < hi * hi,
        decreases hi - lo,
    {
        let mid = lo + (hi - lo) / 2;
        assert(mid * mid <= 0x4_0000_0000_0000_0000) by (nonlinear_arith)
            requires
                mid <= 0x2_0000_0000,
        ;
        if mid * mid <= n {
            lo = mid;
        } else {
            hi = mid;
        }
    }
    lo as u64
}

/// Where a skill aimed at `target` lands when cast from `from` with range
/// `range`: the target itself when in range, else the point at `range`
/// toward it (with the distance taken as the floor of its root, and each
/// coordinate rounded toward zero).
pub open spec fn limited_pos_spec(from: WorldCoords, target: WorldCoords, range: u32, len: int) -> WorldCoords {
    if from.distance_sq_spec(target) <= range * range {
        target
    } else {
        WorldCoords {
            x: (from.x + tdiv((target.x - from.x) * range, len)) as i32,
            y: (from.y + tdiv((target.y - from.y) * range, len)) as i32,
        }
    }
}

/// A coordinate moved from `a` toward `b` by `range / len` of the way,
/// where `range <= len` and `|b - a| <= len`: it stays between `a` and `b`.
fn shrink_toward(a: i32, b: i32, range: u32, len: u64) -> (r: i32)
    requires
        0 < len <= 0x2_0000_0000,
        range <= len,
        (b - a) * (b - a) <= len * len,
    ensures
        r == a + tdiv((b - a) * range, len as int),
{
    let d = b as i128 - a as i128;
    let rr = range as i128;
    let l = len as i128;
    assert(-l <= d <= l) by (nonlinear_arith)
        requires
            d * d <= l * l,
            l > 0,
    ;
    assert(-0x2_0000_0000 * 0xffff_ffff <= d * rr <= 0x2_0000_0000 * 0xffff_ffff)
        by (nonlinear_arith)
        requires
            -0x2_0000_0000 <= d <= 0x2_0000_0000,
            0 <= rr <= 0xffff_ffff,
    ;
    let prod = d * rr;
    let q = if prod >= 0 {
        prod / l
    } else {
        -((-prod) / l)
    };
    proof {
        let ad: int = if d >= 0 { d as int } else { -(d as int) };
        let ap: int = if prod >= 0 { prod as int } else { -(prod as int) };
        assert(ap == ad * rr) by (nonlinear_arith)
            requires
                prod == d * rr,
                rr >= 0,
                ad == d || ad == -d,
                ad >= 0,
                ap == prod || ap == -prod,
                ap >= 0,
                (d >= 0) == (ad == d),
                (prod >= 0) == (ap == prod),
        ;
        assert(ad * rr <= ad * (l as int)) by (nonlinear_arith)
            requires
                0 <= rr <= l,
                ad >= 0,
        ;
        vstd::arithmetic::div_mod::lemma_div_is_ordered(ap, ad * (l as int), l as int);
        vstd::arithmetic::div_mod::lemma_div_multiples_vanish(ad, l as int);
        assert(ad * (l as int) == (l as int) * ad) by (nonlinear_arith);
        vstd::arithmetic::div_mod::lemma_div_pos_is_pos(ap, l as int);
        assert(0 <= ap / (l as int) <= ad);
        if prod > 0 {
            assert(d > 0) by (nonlinear_arith)
                requires
                    prod == d * rr,
                    rr >= 0,
                    prod > 0,
            ;
        } else if prod < 0 {
            assert(d < 0) by (nonlinear_arith)
                requires
                    prod == d * rr,
                    rr >= 0,
                    prod < 0,
            ;
        }
    }
    (a as i128 + q) as i32
}

/// The landing point of a skill, clamped into range, and the direction
/// from the caster toward the target.
pub fn limit_vector_into_range(char_pos: &WorldCoords, mouse_pos: &WorldCoords, range: u32) -> (r: (WorldCoords, WorldCoords))
    ensures
        r.1 == direction_spec(*char_pos, *mouse_pos),
        r.0 == limited_pos_spec(*char_pos, *mouse_pos, range, isqrt_spec(char_pos.distance_sq_spec(*mouse_pos))),
{
    let dist_sq = char_pos.distance_sq(mouse_pos);
    let dir = WorldCoords {
        x: (mouse_pos.x as i64 - char_pos.x as i64) as i32,
        y: (mouse_pos.y as i64 - char_pos.y as i64) as i32,
    };
    assert(range as u128 * range as u128 <= 0xffff_ffff * 0xffff_ffff) by (nonlinear_arith)
        requires
            range <= 0xffff_ffff,
    ;
    let range_sq = range as u128 * range as u128;
    if dist_sq <= range_sq {
        (*mouse_pos, dir)
    } else {
        assert(dist_sq < 0x4_0000_0000_0000_0000) by (nonlinear_arith)
            requires
                dist_sq == (char_pos.x - mouse_pos.x) * (char_pos.x - mouse_pos.x) + (char_pos.y
                    - mouse_pos.y) * (char_pos.y - mouse_pos.y),
                -0x1_0000_0000 < char_pos.x - mouse_pos.x < 0x1_0000_0000,
                -0x1_0000_0000 < char_pos.y - mouse_pos.y < 0x1_0000_0000,
        ;
        let len = isqrt(dist_sq);
        proof {
            lemma_isqrt_unique(dist_sq as int, len as int);
        }
        assert(range <= len) by (nonlinear_arith)
            requires
                range * range < dist_sq,
                dist_sq < (len + 1) * (len + 1),
        ;
        assert(len > 0) by (nonlinear_arith)
            requires
                range * range < dist_sq,
                dist_sq < (len + 1) * (len + 1),
                len >= 0,
        ;
        let dx = mouse_pos.x as i64 - char_pos.x as i64;
        let dy = mouse_pos.y as i64 - char_pos.y as i64;
        assert(dx * dx <= dist_sq && dy * dy <= dist_sq) by (nonlinear_arith)
            requires
                dist_sq == (-dx) * (-dx) + (-dy) * (-dy),
        ;
        proof {
            lemma_square_below(dx as int, len as int, dist_sq as int);
            lemma_square_below(dy as int, len as int, dist_sq as int);
        }
        assert(len <= 0x2_0000_0000) by (nonlinear_arith)
            requires
                len * len <= dist_sq,
                dist_sq < 0x4_0000_0000_0000_0000,
                len >= 0,
        ;
        let pos = WorldCoords {
            x: shrink_toward(char_pos.x, mouse_pos.x, range, len),
            y: shrink_toward(char_pos.y, mouse_pos.y, range, len),
        };
        (pos, dir)
    }
}

/// From `from` toward `to`, each coordinate wrapped into `i32`.
pub open spec fn direction_spec(from: WorldCoords, to: WorldCoords) -> WorldCoords {
    WorldCoords { x: (to.x - from.x) as i32, y: (to.y - from.y) as i32 }
}

/// The characters under the mouse cursor, nearest first.
#[derive(Copy, Clone, Debug, PartialEq, Eq, Structural)]
pub struct EntitiesBelowCursor {
    pub enemy: Option<CharEntityId>,
    pub friend: Option<CharEntityId>,
}

impl EntitiesBelowCursor {
    pub open spec fn friend_except_spec(self, id: CharEntityId) -> Option<CharEntityId> {
        match self.friend {
            Some(f) => if f != id {
                Some(f)
            } else {
                None
            },
            None => None,
        }
    }

    /// The target a skill of `target_type` picks from under the cursor.
    pub open spec fn target_for(self, target_type: SkillTargetType, self_id: CharEntityId) -> Option<CharEntityId> {
        match target_type {
            SkillTargetType::AnyEntity => if self.enemy is Some {
                self.enemy
            } else {
                self.friend
            },
            SkillTargetType::NoTarget | SkillTargetType::Area | SkillTargetType::Directional => None,
            SkillTargetType::OnlyAllyButNoSelf => self.friend_except_spec(self_id),
            SkillTargetType::OnlyAllyAndSelf => self.friend,
            SkillTargetType::OnlyEnemy => self.enemy,
            SkillTargetType::OnlySelf => Some(self_id),
        }
    }

    fn get_target(&self, target_type: SkillTargetType, self_id: CharEntityId) -> (r: Option<CharEntityId>)
        ensures
            r == self.target_for(target_type, self_id),
    {
        match target_type {
            SkillTargetType::AnyEntity => if self.enemy.is_some() {
                self.enemy
            } else {
                self.friend
            },
            SkillTargetType::NoTarget => None,
            SkillTargetType::Area => None,
            SkillTargetType::Directional => None,
            SkillTargetType::OnlyAllyButNoSelf => match self.friend {
                Some(f) => if f.0 != self_id.0 {
                    Some(f)
                } else {
                    None
                },
                None => None,
            },
            SkillTargetType::OnlyAllyAndSelf => self.friend,
            SkillTargetType::OnlyEnemy => self.enemy,
            SkillTargetType::OnlySelf => Some(self_id),
        }
    }
}

/// What a cast request comes to.
#[derive(Copy, Clone, Debug, PartialEq, Eq, Structural)]
pub enum CastDecision {
    /// The skill is cooling down or control is blocked: ask again next tick.
    Retry,
    /// The target is not legal for the skill: the request is dropped.
    Drop,
    /// The cast starts.
    Start,
}

/// Where a cast request aims: the caster itself on a self cast, else the
/// cursor position and the entity the skill's target type picks there.
pub open spec fn resolved_target(
    target_type: SkillTargetType,
    char_pos: WorldCoords,
    mouse_world_pos: WorldCoords,
    below: EntitiesBelowCursor,
    self_id: CharEntityId,
    is_self_cast: bool,
) -> (WorldCoords, Option<CharEntityId>) {
    if is_self_cast {
        (char_pos, Some(self_id))
    } else {
        (mouse_world_pos, below.target_for(target_type, self_id))
    }
}

/// The decision on a cast request, from the cooldown table, the control
/// gate and the target-type rule.
pub open spec fn cast_decision(
    char_state: CharacterStateComponent,
    state: CharState,
    skill: Skills,
    target_type: SkillTargetType,
    cast_attrs: SkillCastingAttributes,
    now: ElapsedTime,
    char_pos: WorldCoords,
    mouse_world_pos: WorldCoords,
    below: EntitiesBelowCursor,
    self_id: CharEntityId,
    is_self_cast: bool,
) -> CastDecision {
    let (target_pos, target_entity) = resolved_target(
        target_type,
        char_pos,
        mouse_world_pos,
        below,
        self_id,
        is_self_cast,
    );
    let allowed = casting_allowed_spec(
        target_type,
        cast_attrs.casting_range,
        self_id,
        target_entity,
        char_pos.distance_sq_spec(target_pos) as u128,
    );
    let can_cast = can_cast_spec(char_state, state, now);
    if char_state.skill_cast_allowed_at@[skill.index_spec()].0 > now.0 {
        CastDecision::Retry
    } else if allowed && can_cast {
        CastDecision::Start
    } else if can_cast {
        CastDecision::Drop
    } else {
        CastDecision::Retry
    }
}

/// The casting state a started cast enters.
pub open spec fn started_cast(
    skill: Skills,
    target_type: SkillTargetType,
    cast_attrs: SkillCastingAttributes,
    now: ElapsedTime,
    char_pos: WorldCoords,
    mouse_world_pos: WorldCoords,
    below: EntitiesBelowCursor,
    self_id: CharEntityId,
    is_self_cast: bool,
) -> CharState {
    let (target_pos, target_entity) = resolved_target(
        target_type,
        char_pos,
        mouse_world_pos,
        below,
        self_id,
        is_self_cast,
    );
    CharState::CastingSkill(
        CastingSkillData {
            target_entity,
            cast_started: now,
            cast_ends: ElapsedTime((now.0 + cast_attrs.casting_time.0) as i64),
            can_move: false,
            skill,
            target_area_pos: match target_type {
                SkillTargetType::Area | SkillTargetType::Directional => Some(
                    limited_pos_spec(
                        char_pos,
                        target_pos,
                        cast_attrs.casting_range,
                        isqrt_spec(char_pos.distance_sq_spec(target_pos)),
                    ),
                ),
                _ => None,
            },
            char_to_skill_dir_when_casted: direction_spec(char_pos, target_pos),
        },
    )
}

impl SkillCastingAttributes {
    /// Casting time and delay are durations that a simulation time can absorb.
    pub open spec fn wf(self) -> bool {
        &&& 0 <= self.casting_time.0 <= MAX_SIMULATION_MILLIS
        &&& 0 <= self.cast_delay.0 <= MAX_SIMULATION_MILLIS
    }
}

/// Handles a request to cast `skill`. On a start the state becomes
/// `CastingSkill` and the skill's next cast is allowed `cast_delay` later.
/// Answers whether the request should be made again next tick: true while
/// the skill cools down or control is blocked, false once the cast started
/// or when the target was not legal.
pub fn try_cast_skill(
    skill: Skills,
    target_type: SkillTargetType,
    cast_attrs: &SkillCastingAttributes,
    now: ElapsedTime,
    char_state: &mut CharacterStateComponent,
    state: &mut CharState,
    char_pos: WorldCoords,
    mouse_world_pos: WorldCoords,
    entities_below_cursor: &EntitiesBelowCursor,
    self_char_id: CharEntityId,
    is_self_cast: bool,
) -> (retry: bool)
    requires
        old(char_state).wf(),
        cast_attrs.wf(),
        0 <= now.0 <= MAX_SIMULATION_MILLIS,
    ensures
        final(char_state).wf(),
        ({
            let d = cast_decision(
                *old(char_state),
                *old(state),
                skill,
                target_type,
                *cast_attrs,
                now,
                char_pos,
                mouse_world_pos,
                *entities_below_cursor,
                self_char_id,
                is_self_cast,
            );
            &&& retry == (d == CastDecision::Retry)
            &&& d == CastDecision::Start ==> {
                &&& *final(state) == started_cast(
                    skill,
                    target_type,
                    *cast_attrs,
                    now,
                    char_pos,
                    mouse_world_pos,
                    *entities_below_cursor,
                    self_char_id,
                    is_self_cast,
                )
                &&& final(char_state).skill_cast_allowed_at@ == old(
                    char_state,
                ).skill_cast_allowed_at@.update(
                    skill.index_spec(),
                    ElapsedTime((now.0 + cast_attrs.cast_delay.0) as i64),
                )
            }
            &&& d != CastDecision::Start ==> {
                &&& *final(state) == *old(state)
                &&& final(char_state).skill_cast_allowed_at@ == old(char_state).skill_cast_allowed_at@
            }
        }),
        final(char_state).statuses@ == old(char_state).statuses@,
        final(char_state).cannot_control_until == old(char_state).cannot_control_until,
        final(char_state).calculated_attribs == old(char_state).calculated_attribs,
        final(char_state).hp == old(char_state).hp,
{
    let idx = skill.index();
    if char_state.skill_cast_allowed_at[idx].has_not_passed_yet(now) {
        return true;
    }
    let (target_pos, target_entity) = if is_self_cast {
        (char_pos, Some(self_char_id))
    } else {
        (mouse_world_pos, entities_below_cursor.get_target(target_type, self_char_id))
    };
    let distance_sq = char_pos.distance_sq(&target_pos);
    let allowed = Skills::is_casting_allowed_based_on_target(
        target_type,
        cast_attrs.casting_range,
        self_char_id,
        target_entity,
        distance_sq,
    );
    let can_cast = can_char_cast(char_state, state, now);
    if allowed && can_cast {
        let (limited_pos, dir_vector) = limit_vector_into_range(
            &char_pos,
            &target_pos,
            cast_attrs.casting_range,
        );
        let target_area_pos = match target_type {
            SkillTargetType::Area | SkillTargetType::Directional => Some(limited_pos),
            _ => None,
        };
        *state = CharState::CastingSkill(
            CastingSkillData {
                target_entity,
                cast_started: now,
                cast_ends: now.add(cast_attrs.casting_time),
                can_move: false,
                skill,
                target_area_pos,
                char_to_skill_dir_when_casted: dir_vector,
            },
        );
        char_state.skill_cast_allowed_at.set(idx, now.add(cast_attrs.cast_delay));
        false
    } else {
        // ask again only when control was blocked, not when the target was not legal
        !can_cast
    }
}

/// A cast requested while an earlier action still holds control is neither
/// started nor dropped: it is retried. Requested again once control is back
/// (cooldown over, state and statuses allowing a cast), it starts when the
/// target is legal by then and is dropped only when it is not.
pub proof fn lemma_blocked_cast_is_retried(
    char_state: CharacterStateComponent,
    state: CharState,
    skill: Skills,
    target_type: SkillTargetType,
    cast_attrs: SkillCastingAttributes,
    now: ElapsedTime,
    later: ElapsedTime,
    char_pos: WorldCoords,
    mouse_world_pos: WorldCoords,
    below: EntitiesBelowCursor,
    self_id: CharEntityId,
    is_self_cast: bool,
)
    requires
        char_state.wf(),
        char_state.cannot_control_until.0 > now.0,
    ensures
        cast_decision(
            char_state,
            state,
            skill,
            target_type,
            cast_attrs,
            now,
            char_pos,
            mouse_world_pos,
            below,
            self_id,
            is_self_cast,
        ) == CastDecision::Retry,
        ({
            let (target_pos, target_entity) = resolved_target(
                target_type,
                char_pos,
                mouse_world_pos,
                below,
                self_id,
                is_self_cast,
            );
            let legal = casting_allowed_spec(
                target_type,
                cast_attrs.casting_range,
                self_id,
                target_entity,
                char_pos.distance_sq_spec(target_pos) as u128,
            );
            (later.0 >= char_state.cannot_control_until.0 && char_state.skill_cast_allowed_at@[skill.index_spec()].0
                <= later.0 && can_cast_spec(char_state, state, later)) ==> cast_decision(
                char_state,
                state,
                skill,
                target_type,
                cast_attrs,
                later,
                char_pos,
                mouse_world_pos,
                below,
                self_id,
                is_self_cast,
            ) == if legal {
                CastDecision::Start
            } else {
                CastDecision::Drop
            }
        }),
{
}

/// The floor of the square root of `n`.
pub open spec fn isqrt_spec(n: int) -> int {
    choose|r: int| #[trigger] is_floor_sqrt(n, r)
}

/// `r` is the floor of the square root of `n`.
pub open spec fn is_floor_sqrt(n: int, r: int) -> bool {
    0 <= r && r * r <= n < (r + 1) * (r + 1)
}

proof fn lemma_square_below(x: int, l: int, n: int)
    requires
        0 <= l,
        x * x <= n < (l + 1) * (l + 1),
    ensures
        x * x <= l * l,
{
    let ax = if x >= 0 { x } else { -x };
    assert(ax * ax == x * x) by (nonlinear_arith)
        requires
            ax == x || ax == -x,
    ;
    if ax > l {
        assert((l + 1) * (l + 1) <= ax * ax) by (nonlinear_arith)
            requires
                l + 1 <= ax,
                0 <= l,
        ;
    }
    assert(ax * ax <= l * l) by (nonlinear_arith)
        requires
            0 <= ax <= l,
    ;
}

proof fn lemma_isqrt_unique(n: int, r: int)
    requires
        0 <= r,
        r * r <= n < (r + 1) * (r + 1),
    ensures
        isqrt_spec(n) == r,
{
    assert(is_floor_sqrt(n, r));
    let c = isqrt_spec(n);
    assert(is_floor_sqrt(n, c));
    if c < r {
        assert((c + 1) * (c + 1) <= r * r) by (nonlinear_arith)
            requires
                0 <= c < r,
        ;
    } else if c > r {
        assert((r + 1) * (r + 1) <= c * c) by (nonlinear_arith)
            requires
                0 <= r < c,
        ;
    }
}

} // verus!
