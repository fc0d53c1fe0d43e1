use vstd::prelude::*;

use crate::attributes::{
    Attribute, BonusDurations, BonusWindow, CharAttributeModifier, CharAttributeModifierCollector, merge_window_spec,
};
use crate::collision::lemma_modify_bit;
use crate::coords::WorldCoords;
use crate::percentage::{Percentage, tdiv};
use crate::skill::CharEntityId;
use crate::time::{ElapsedTime, MAX_SIMULATION_MILLIS};

verus! {

/// How long a fire bomb burns before it explodes, in milliseconds.
pub const FIRE_BOMB_DURATION_MILLIS: i64 = 2000;
/// Radius of a fire bomb's explosion, in thousandths of a world unit.
pub const FIRE_BOMB_RADIUS: u32 = 2000;
/// Hit count shown for a fire bomb's explosion.
pub const FIRE_BOMB_COMBO: u8 = 10;

/// Most statuses one character can carry: one bit each in an update mask.
pub const MAX_STATUS_COUNT: usize = 32;

#[derive(Copy, Clone, Debug, PartialEq, Eq, Structural)]
pub enum StatusNature {
    Beneficial,
    Harmful,
    Neutral,
}

#[derive(Copy, Clone, Debug, PartialEq, Eq, Structural)]
pub enum StatusUpdateResult {
    KeepIt,
    RemoveIt,
}

/// A burning bomb on a character; when it runs out it explodes around the
/// character and plants new bombs on everyone else in the blast.
#[derive(Copy, Clone, Debug, PartialEq, Eq, Structural)]
pub struct FireBombStatus {
    pub caster_entity_id: CharEntityId,
    pub damage: u32,
    pub started: ElapsedTime,
    pub until: ElapsedTime,
}

/// A timed change to one attribute.
#[derive(Copy, Clone, Debug, PartialEq, Eq, Structural)]
pub struct AttributeBonusStatus {
    pub attribute: Attribute,
    pub modifier: CharAttributeModifier,
    pub started: ElapsedTime,
    pub until: ElapsedTime,
    pub nature: StatusNature,
}

/// The time span of a status that has no other data.
#[derive(Copy, Clone, Debug, PartialEq, Eq, Structural)]
pub struct TimedStatus {
    pub started: ElapsedTime,
    pub until: ElapsedTime,
}

/// Every kind of status a character can carry.
#[derive(Copy, Clone, Debug, PartialEq, Eq, Structural)]
pub enum Status {
    FireBomb(FireBombStatus),
    AttributeBonus(AttributeBonusStatus),
    /// Neither moving nor casting is possible.
    Stun(TimedStatus),
    /// Casting is not possible.
    Silence(TimedStatus),
    /// Riding a mount, until the mounting skill is cast again.
    Mounted { started: ElapsedTime },
}

/// Damage of an area attack.
#[derive(Copy, Clone, Debug, PartialEq, Eq, Structural)]
pub enum AttackType {
    SpellDamage { damage: u32, combo: u8 },
}

/// A request to damage everyone within `radius` of `center`.
#[derive(Copy, Clone, Debug, PartialEq, Eq, Structural)]
pub struct AreaAttackComponent {
    pub center: WorldCoords,
    pub radius: u32,
    pub source_entity_id: CharEntityId,
    pub typ: AttackType,
}

/// A request to put `status` on everyone within `radius` of `center` but `except`.
#[derive(Copy, Clone, Debug, PartialEq, Eq, Structural)]
pub struct ApplyStatusInAreaComponent {
    pub source_entity_id: CharEntityId,
    pub status: Status,
    pub center: WorldCoords,
    pub radius: u32,
    pub except: Option<CharEntityId>,
}

/// A request to put `status` on one character.
#[derive(Copy, Clone, Debug, PartialEq, Eq, Structural)]
pub struct ApplyStatusComponent {
    pub source_entity_id: CharEntityId,
    pub target_entity_id: CharEntityId,
    pub status: Status,
}

/// The append-only requests of one tick, drained once before the next.
#[derive(Clone, Debug)]
pub struct SimulationQueues {
    pub area_attacks: Vec<AreaAttackComponent>,
    pub apply_area_statuses: Vec<ApplyStatusInAreaComponent>,
    pub apply_statuses: Vec<ApplyStatusComponent>,
}

impl SimulationQueues {
    pub fn new() -> (r: SimulationQueues)
        ensures
            r.area_attacks@.len() == 0,
            r.apply_area_statuses@.len() == 0,
            r.apply_statuses@.len() == 0,
    {
        SimulationQueues {
            area_attacks: Vec::new(),
            apply_area_statuses: Vec::new(),
            apply_statuses: Vec::new(),
        }
    }
}

/// Share of `[started, until]` that has elapsed at `now`, clamped to
/// [0%, 100%], in raw percentage units.
pub open spec fn completion_spec(now: ElapsedTime, started: ElapsedTime, until: ElapsedTime) -> int {
    if now.0 <= started.0 {
        0
    } else if now.0 >= until.0 {
        100_000
    } else {
        tdiv((now.0 - started.0) * 100_000, until.0 - started.0)
    }
}

fn completion(now: ElapsedTime, started: ElapsedTime, until: ElapsedTime) -> (r: Percentage)
    ensures
        r.value() == completion_spec(now, started, until),
{
    if now.0 <= started.0 {
        Percentage::from_raw(0)
    } else if now.0 >= until.0 {
        Percentage::from_raw(100_000)
    } else {
        let elapsed = now.0 as i128 - started.0 as i128;
        let total = until.0 as i128 - started.0 as i128;
        assert(0 < elapsed < total);
        let scaled = elapsed * 100_000;
        let q = scaled / total;
        assert(0 <= q <= 100_000) by (nonlinear_arith)
            requires
                0 < elapsed < total,
                scaled == elapsed * 100_000,
                q == scaled / total,
        ;
        Percentage::from_raw(q as i32)
    }
}

impl Status {
    /// The status runs out at `now`.
    pub open spec fn expires(self, now: ElapsedTime) -> bool {
        match self {
            Status::FireBomb(s) => s.until.0 <= now.0,
            Status::AttributeBonus(s) => s.until.0 <= now.0,
            Status::Stun(s) => s.until.0 <= now.0,
            Status::Silence(s) => s.until.0 <= now.0,
            Status::Mounted { .. } => false,
        }
    }

    pub open spec fn blocks_cast(self) -> bool {
        self is Stun || self is Silence
    }

    pub open spec fn blocks_move(self) -> bool {
        self is Stun
    }

    /// Area attacks this status requests when updated at `now` on a character at `pos`.
    pub open spec fn area_attacks_of(self, pos: WorldCoords, now: ElapsedTime) -> Seq<AreaAttackComponent> {
        match self {
            Status::FireBomb(s) => if self.expires(now) {
                seq![
                    AreaAttackComponent {
                        center: pos,
                        radius: FIRE_BOMB_RADIUS,
                        source_entity_id: s.caster_entity_id,
                        typ: AttackType::SpellDamage { damage: s.damage, combo: FIRE_BOMB_COMBO },
                    },
                ]
            } else {
                seq![]
            },
            _ => seq![],
        }
    }

    /// Area status requests this status makes when updated at `now` on
    /// character `self_id` at `pos`.
    pub open spec fn area_statuses_of(
        self,
        self_id: CharEntityId,
        pos: WorldCoords,
        now: ElapsedTime,
    ) -> Seq<ApplyStatusInAreaComponent> {
        match self {
            Status::FireBomb(s) => if self.expires(now) {
                seq![
                    ApplyStatusInAreaComponent {
                        source_entity_id: s.caster_entity_id,
                        status: Status::FireBomb(
                            FireBombStatus {
                                caster_entity_id: s.caster_entity_id,
                                started: now,
                                until: ElapsedTime((now.0 + FIRE_BOMB_DURATION_MILLIS) as i64),
                                damage: s.damage,
                            },
                        ),
                        center: pos,
                        radius: FIRE_BOMB_RADIUS,
                        except: Some(self_id),
                    },
                ]
            } else {
                seq![]
            },
            _ => seq![],
        }
    }

    /// One tick of the status: says whether it is to be removed and pushes
    /// the requests it makes (a fire bomb's explosion) onto `queues`.
    pub fn update(
        &self,
        self_char_id: CharEntityId,
        char_pos: WorldCoords,
        now: ElapsedTime,
        queues: &mut SimulationQueues,
    ) -> (r: StatusUpdateResult)
        requires
            0 <= now.0 <= MAX_SIMULATION_MILLIS,
        ensures
            r == (if self.expires(now) {
                StatusUpdateResult::RemoveIt
            } else {
                StatusUpdateResult::KeepIt
            }),
            final(queues).area_attacks@ == old(queues).area_attacks@ + self.area_attacks_of(
                char_pos,
                now,
            ),
            final(queues).apply_area_statuses@ == old(queues).apply_area_statuses@
                + self.area_statuses_of(self_char_id, char_pos, now),
            final(queues).apply_statuses@ == old(queues).apply_statuses@,
    {
        match self {
            Status::FireBomb(s) => {
                if s.until.has_already_passed(now) {
                    queues.area_attacks.push(
                        AreaAttackComponent {
                            center: char_pos,
                            radius: FIRE_BOMB_RADIUS,
                            source_entity_id: s.caster_entity_id,
                            typ: AttackType::SpellDamage { damage: s.damage, combo: FIRE_BOMB_COMBO },
                        },
                    );
                    queues.apply_area_statuses.push(
                        ApplyStatusInAreaComponent {
                            source_entity_id: s.caster_entity_id,
                            status: Status::FireBomb(
                                FireBombStatus {
                                    caster_entity_id: s.caster_entity_id,
                                    started: now,
                                    until: now.add_millis(FIRE_BOMB_DURATION_MILLIS),
                                    damage: s.damage,
                                },
                            ),
                            center: char_pos,
                            radius: FIRE_BOMB_RADIUS,
                            except: Some(self_char_id),
                        },
                    );
                    assert(queues.area_attacks@ =~= old(queues).area_attacks@ + self.area_attacks_of(
                        char_pos,
                        now,
                    ));
                    assert(queues.apply_area_statuses@ =~= old(queues).apply_area_statuses@
                        + self.area_statuses_of(self_char_id, char_pos, now));
                    StatusUpdateResult::RemoveIt
                } else {
                    assert(queues.area_attacks@ =~= old(queues).area_attacks@ + seq![]);
                    assert(queues.apply_area_statuses@ =~= old(queues).apply_area_statuses@ + seq![]);
                    StatusUpdateResult::KeepIt
                }
            },
            _ => {
                assert(queues.area_attacks@ =~= old(queues).area_attacks@ + seq![]);
                assert(queues.apply_area_statuses@ =~= old(queues).apply_area_statuses@ + seq![]);
                let expired = match self {
                    Status::AttributeBonus(s) => s.until.has_already_passed(now),
                    Status::Stun(s) => s.until.has_already_passed(now),
                    Status::Silence(s) => s.until.has_already_passed(now),
                    _ => false,
                };
                if expired {
                    StatusUpdateResult::RemoveIt
                } else {
                    StatusUpdateResult::KeepIt
                }
            },
        }
    }

    pub fn typ(&self) -> (r: StatusNature)
        ensures
            r == (match self {
                Status::FireBomb(_) | Status::Stun(_) | Status::Silence(_) => StatusNature::Harmful,
                Status::AttributeBonus(s) => s.nature,
                Status::Mounted { .. } => StatusNature::Neutral,
            }),
    {
        match self {
            Status::FireBomb(_) => StatusNature::Harmful,
            Status::AttributeBonus(s) => s.nature,
            Status::Stun(_) => StatusNature::Harmful,
            Status::Silence(_) => StatusNature::Harmful,
            Status::Mounted { .. } => StatusNature::Neutral,
        }
    }

    /// When a timed status ends and how much of it has elapsed at `now`.
    pub fn get_status_completion_percent(&self, now: ElapsedTime) -> (r: Option<(ElapsedTime, Percentage)>)
        ensures
            match *self {
                Status::FireBomb(FireBombStatus { started, until, .. })
                | Status::AttributeBonus(AttributeBonusStatus { started, until, .. })
                | Status::Stun(TimedStatus { started, until })
                | Status::Silence(TimedStatus { started, until }) => r matches Some((e, p)) && e
                    == until && p.value() == completion_spec(now, started, until),
                Status::Mounted { .. } => r is None,
            },
    {
        match self {
            Status::FireBomb(s) => Some((s.until, completion(now, s.started, s.until))),
            Status::AttributeBonus(s) => Some((s.until, completion(now, s.started, s.until))),
            Status::Stun(s) => Some((s.until, completion(now, s.started, s.until))),
            Status::Silence(s) => Some((s.until, completion(now, s.started, s.until))),
            Status::Mounted { .. } => None,
        }
    }
}

/// The modifiers that `statuses` contribute to attribute `a`, in order.
pub open spec fn mods_of(statuses: Seq<Status>, a: Attribute) -> Seq<CharAttributeModifier>
    decreases statuses.len(),
{
    if statuses.len() == 0 {
        seq![]
    } else {
        statuses.last().push_mod(mods_of(statuses.drop_last(), a), a)
    }
}

/// The bonus window that `statuses` leave on attribute `a`.
pub open spec fn window_of(statuses: Seq<Status>, a: Attribute) -> Option<BonusWindow>
    decreases statuses.len(),
{
    if statuses.len() == 0 {
        None
    } else {
        statuses.last().merge_window(window_of(statuses.drop_last(), a), a)
    }
}

/// The bonus windows that `statuses` leave, attribute by attribute.
pub open spec fn durations_of(statuses: Seq<Status>) -> BonusDurations {
    BonusDurations {
        max_hp: window_of(statuses, Attribute::MaxHp),
        walking_speed: window_of(statuses, Attribute::MovementSpeed),
        attack_range: window_of(statuses, Attribute::AttackRange),
        attack_speed: window_of(statuses, Attribute::AttackSpeed),
        attack_damage: window_of(statuses, Attribute::AttackDamage),
        armor: window_of(statuses, Attribute::Armor),
        healing: window_of(statuses, Attribute::Healing),
        hp_regen: window_of(statuses, Attribute::HpRegen),
        mana_regen: window_of(statuses, Attribute::ManaRegen),
    }
}

pub proof fn lemma_durations_of_collected(statuses: Seq<Status>, c: CharAttributeModifierCollector)
    requires
        collected(statuses, c),
    ensures
        c.durations() == durations_of(statuses),
{
    assert(c.mods(Attribute::MaxHp) == mods_of(statuses, Attribute::MaxHp));
    assert(c.mods(Attribute::MovementSpeed) == mods_of(statuses, Attribute::MovementSpeed));
    assert(c.mods(Attribute::AttackRange) == mods_of(statuses, Attribute::AttackRange));
    assert(c.mods(Attribute::AttackSpeed) == mods_of(statuses, Attribute::AttackSpeed));
    assert(c.mods(Attribute::AttackDamage) == mods_of(statuses, Attribute::AttackDamage));
    assert(c.mods(Attribute::Armor) == mods_of(statuses, Attribute::Armor));
    assert(c.mods(Attribute::Healing) == mods_of(statuses, Attribute::Healing));
    assert(c.mods(Attribute::HpRegen) == mods_of(statuses, Attribute::HpRegen));
    assert(c.mods(Attribute::ManaRegen) == mods_of(statuses, Attribute::ManaRegen));
}

/// `c` holds exactly what `statuses` contribute, in order.
pub open spec fn collected(statuses: Seq<Status>, c: CharAttributeModifierCollector) -> bool {
    forall|a: Attribute|
        #[trigger] c.mods(a) == mods_of(statuses, a) && c.durations().get(a) == window_of(
            statuses,
            a,
        )
}

/// Requests made by updating each of `statuses` in order.
pub open spec fn area_attacks_of_all(statuses: Seq<Status>, pos: WorldCoords, now: ElapsedTime) -> Seq<
    AreaAttackComponent,
>
    decreases statuses.len(),
{
    if statuses.len() == 0 {
        seq![]
    } else {
        area_attacks_of_all(statuses.drop_last(), pos, now) + statuses.last().area_attacks_of(pos, now)
    }
}

pub open spec fn area_statuses_of_all(
    statuses: Seq<Status>,
    self_id: CharEntityId,
    pos: WorldCoords,
    now: ElapsedTime,
) -> Seq<ApplyStatusInAreaComponent>
    decreases statuses.len(),
{
    if statuses.len() == 0 {
        seq![]
    } else {
        area_statuses_of_all(statuses.drop_last(), self_id, pos, now) + statuses.last().area_statuses_of(
            self_id,
            pos,
            now,
        )
    }
}

/// Bit `i` of `mask` is set.
pub open spec fn bit_set(mask: u32, i: int) -> bool {
    ((mask >> (i as u32)) & 1u32) == 1u32
}

/// The statuses of `s` whose bit in `mask` is clear, in order.
pub open spec fn keep_unmasked(s: Seq<Status>, mask: u32) -> Seq<Status>
    decreases s.len(),
{
    if s.len() == 0 {
        seq![]
    } else {
        let prev = keep_unmasked(s.drop_last(), mask);
        if bit_set(mask, s.len() - 1) {
            prev
        } else {
            prev.push(s.last())
        }
    }
}

/// The statuses of `s` that do not run out at `now`, in order.
pub open spec fn unexpired(s: Seq<Status>, now: ElapsedTime) -> Seq<Status>
    decreases s.len(),
{
    if s.len() == 0 {
        seq![]
    } else {
        let prev = unexpired(s.drop_last(), now);
        if s.last().expires(now) {
            prev
        } else {
            prev.push(s.last())
        }
    }
}

proof fn lemma_set_bit_nonzero(mask: u32, i: u32)
    requires
        i < 32,
    ensures
        (mask | (1u32 << i)) != 0,
{
    assert((mask | (1u32 << i)) != 0) by (bit_vector)
        requires
            i < 32,
    ;
}

proof fn lemma_zero_mask(j: u32)
    requires
        j < 32,
    ensures
        ((0u32 >> j) & 1u32) != 1u32,
{
    assert(((0u32 >> j) & 1u32) != 1u32) by (bit_vector);
}

/// Removing the statuses whose bits are set, where exactly the expired ones
/// have their bit set, keeps exactly the unexpired statuses.
pub proof fn lemma_mask_removal_keeps_unexpired(s: Seq<Status>, mask: u32, now: ElapsedTime)
    requires
        s.len() <= 32,
        forall|i: int| 0 <= i < s.len() ==> bit_set(mask, i) == #[trigger] s[i].expires(now),
    ensures
        keep_unmasked(s, mask) == unexpired(s, now),
    decreases s.len(),
{
    if s.len() > 0 {
        let d = s.drop_last();
        assert forall|i: int| 0 <= i < d.len() implies bit_set(mask, i) == #[trigger] d[i].expires(
            now,
        ) by {
            assert(d[i] == s[i]);
        }
        lemma_mask_removal_keeps_unexpired(d, mask, now);
        assert(bit_set(mask, s.len() - 1) == s[s.len() - 1].expires(now));
    }
}

impl Status {
    /// Adds what this status contributes to the attributes to `collector`.
    pub fn calc_attribs(&self, collector: &mut CharAttributeModifierCollector)
        ensures
            collected_step(*self, *old(collector), *final(collector)),
    {
        match self {
            Status::AttributeBonus(b) => {
                collector.change(b.attribute, b.modifier, b.started, b.until);
                assert(collector.mods(b.attribute) == self.push_mod(old(collector).mods(b.attribute), b.attribute));
                assert(collector.durations().get(b.attribute) == self.merge_window(old(collector).durations().get(b.attribute), b.attribute));
                assert forall|a: Attribute| #[trigger] collector.mods(a) == self.push_mod(old(collector).mods(a), a)
                    && collector.durations().get(a) == self.merge_window(old(collector).durations().get(a), a) by {
                    if a != b.attribute {
                        assert(collector.mods(a) == old(collector).mods(a));
                        assert(collector.durations().get(a) == old(collector).durations().get(a));
                    }
                }
            },
            _ => {},
        }
    }
}

/// `after` is `before` with the contribution of `status` added.
pub open spec fn collected_step(
    status: Status,
    before: CharAttributeModifierCollector,
    after: CharAttributeModifierCollector,
) -> bool {
    forall|a: Attribute|
        #[trigger] after.mods(a) == status.push_mod(before.mods(a), a)
            && after.durations().get(a) == status.merge_window(before.durations().get(a), a)
}

impl Status {
    /// `mods` with this status's modifier appended, when it targets `a`.
    pub open spec fn push_mod(self, mods: Seq<CharAttributeModifier>, a: Attribute) -> Seq<
        CharAttributeModifier,
    > {
        match self {
            Status::AttributeBonus(b) => if b.attribute == a {
                mods.push(b.modifier)
            } else {
                mods
            },
            _ => mods,
        }
    }

    /// `window` merged with this status's span, when it targets `a`.
    pub open spec fn merge_window(self, window: Option<BonusWindow>, a: Attribute) -> Option<
        BonusWindow,
    > {
        match self {
            Status::AttributeBonus(b) => if b.attribute == a {
                merge_window_spec(window, b.started, b.until)
            } else {
                window
            },
            _ => window,
        }
    }
}

/// The statuses of one character, in the order they were applied.
#[derive(Clone, Debug)]
pub struct Statuses {
    statuses: Vec<Status>,
}

impl View for Statuses {
    type V = Seq<Status>;

    closed spec fn view(&self) -> Seq<Status> {
        self.statuses@
    }
}

impl Statuses {
    /// At most `MAX_STATUS_COUNT` statuses, so that each has a bit in a mask.
    pub open spec fn wf(&self) -> bool {
        self@.len() <= MAX_STATUS_COUNT
    }

    pub fn new() -> (r: Statuses)
        ensures
            r@ == Seq::<Status>::empty(),
            r.wf(),
    {
        Statuses { statuses: Vec::new() }
    }

    pub fn count(&self) -> (r: usize)
        ensures
            r == self@.len(),
    {
        self.statuses.len()
    }

    pub fn get(&self, index: usize) -> (r: Status)
        requires
            index < self@.len(),
        ensures
            r == self@[index as int],
    {
        self.statuses[index]
    }

    /// Appends `status` when there is room; answers whether it was added.
    pub fn add(&mut self, status: Status) -> (r: bool)
        requires
            old(self).wf(),
        ensures
            final(self).wf(),
            r == (old(self)@.len() < MAX_STATUS_COUNT),
            final(self)@ == if r {
                old(self)@.push(status)
            } else {
                old(self)@
            },
    {
        if self.statuses.len() < MAX_STATUS_COUNT {
            self.statuses.push(status);
            true
        } else {
            false
        }
    }

    /// Removes the status at `index`, keeping the order of the others.
    pub fn remove(&mut self, index: usize) -> (r: Status)
        requires
            old(self).wf(),
            index < old(self)@.len(),
        ensures
            r == old(self)@[index as int],
            final(self)@ == old(self)@.remove(index as int),
            final(self).wf(),
    {
        self.statuses.remove(index)
    }

    /// No status forbids casting.
    pub fn can_cast(&self) -> (r: bool)
        ensures
            r == (forall|i: int| 0 <= i < self@.len() ==> !(#[trigger] self@[i]).blocks_cast()),
    {
        let mut i: usize = 0;
        while i < self.statuses.len()
            invariant
                0 <= i <= self@.len(),
                forall|j: int| 0 <= j < i ==> !(#[trigger] self@[j]).blocks_cast(),
            decreases self@.len() - i,
        {
            match self.statuses[i] {
                Status::Stun(_) | Status::Silence(_) => {
                    return false;
                },
                _ => {},
            }
            i = i + 1;
        }
        true
    }

    /// No status forbids moving.
    pub fn can_move(&self) -> (r: bool)
        ensures
            r == (forall|i: int| 0 <= i < self@.len() ==> !(#[trigger] self@[i]).blocks_move()),
    {
        let mut i: usize = 0;
        while i < self.statuses.len()
            invariant
                0 <= i <= self@.len(),
                forall|j: int| 0 <= j < i ==> !(#[trigger] self@[j]).blocks_move(),
            decreases self@.len() - i,
        {
            match self.statuses[i] {
                Status::Stun(_) => {
                    return false;
                },
                _ => {},
            }
            i = i + 1;
        }
        true
    }

    pub fn is_mounted(&self) -> (r: bool)
        ensures
            r == (exists|i: int| 0 <= i < self@.len() && (#[trigger] self@[i]) is Mounted),
    {
        let mut i: usize = 0;
        while i < self.statuses.len()
            invariant
                0 <= i <= self@.len(),
                forall|j: int| 0 <= j < i ==> !((#[trigger] self@[j]) is Mounted),
            decreases self@.len() - i,
        {
            match self.statuses[i] {
                Status::Mounted { .. } => {
                    return true;
                },
                _ => {},
            }
            i = i + 1;
        }
        false
    }

    /// Collects the modifiers and bonus windows of every status, in order.
    pub fn calc_attributes(&self) -> (r: CharAttributeModifierCollector)
        ensures
            collected(self@, r),
    {
        let mut c = CharAttributeModifierCollector::new();
        let mut i: usize = 0;
        assert forall|a: Attribute| #[trigger]
            c.mods(a) == mods_of(self@.take(0), a) && c.durations().get(a) == window_of(
                self@.take(0),
                a,
            ) by {
            assert(c.mods(a) =~= mods_of(self@.take(0), a));
        }
        while i < self.statuses.len()
            invariant
                0 <= i <= self@.len(),
                collected(self@.take(i as int), c),
            decreases self@.len() - i,
        {
            let ghost before = c;
            self.statuses[i].calc_attribs(&mut c);
            proof {
                let t = self@.take(i as int + 1);
                assert(t.drop_last() =~= self@.take(i as int));
                assert(t.last() == self@[i as int]);
                assert forall|a: Attribute| #[trigger]
                    c.mods(a) == mods_of(t, a) && c.durations().get(a) == window_of(t, a) by {
                    assert(before.mods(a) == mods_of(self@.take(i as int), a));
                    assert(before.durations().get(a) == window_of(self@.take(i as int), a));
                    assert(c.mods(a) == self@[i as int].push_mod(before.mods(a), a));
                    assert(c.durations().get(a) == self@[i as int].merge_window(
                        before.durations().get(a),
                        a,
                    ));
                }
            }
            i = i + 1;
        }
        assert(self@.take(self@.len() as int) =~= self@);
        c
    }

    /// Updates every status once, in order, and answers the mask of those
    /// to be removed: bit `i` is set exactly when status `i` runs out.
    pub fn update(
        &self,
        self_char_id: CharEntityId,
        char_pos: WorldCoords,
        now: ElapsedTime,
        queues: &mut SimulationQueues,
    ) -> (mask: u32)
        requires
            self.wf(),
            0 <= now.0 <= MAX_SIMULATION_MILLIS,
        ensures
            forall|i: int| 0 <= i < self@.len() ==> bit_set(mask, i) == #[trigger] self@[i].expires(now),
            forall|i: int| self@.len() <= i < 32 ==> !#[trigger] bit_set(mask, i),
            (mask == 0) == (forall|i: int| 0 <= i < self@.len() ==> !(#[trigger] self@[i]).expires(now)),
            final(queues).area_attacks@ == old(queues).area_attacks@ + area_attacks_of_all(
                self@,
                char_pos,
                now,
            ),
            final(queues).apply_area_statuses@ == old(queues).apply_area_statuses@
                + area_statuses_of_all(self@, self_char_id, char_pos, now),
            final(queues).apply_statuses@ == old(queues).apply_statuses@,
    {
        let mut mask: u32 = 0;
        let mut i: usize = 0;
        proof {
            assert forall|j: int| 0 <= j < 32 implies !#[trigger] bit_set(mask, j) by {
                lemma_zero_mask(j as u32);
            }
            assert(old(queues).area_attacks@ + area_attacks_of_all(self@.take(0), char_pos, now)
                =~= old(queues).area_attacks@);
            assert(old(queues).apply_area_statuses@ + area_statuses_of_all(
                self@.take(0),
                self_char_id,
                char_pos,
                now,
            ) =~= old(queues).apply_area_statuses@);
        }
        while i < self.statuses.len()
            invariant
                0 <= i <= self@.len() <= 32,
                forall|j: int| 0 <= j < i ==> bit_set(mask, j) == #[trigger] self@[j].expires(now),
                forall|j: int| i <= j < 32 ==> !#[trigger] bit_set(mask, j),
                (mask == 0) == (forall|j: int| 0 <= j < i ==> !(#[trigger] self@[j]).expires(now)),
                0 <= now.0 <= MAX_SIMULATION_MILLIS,
                queues.area_attacks@ == old(queues).area_attacks@ + area_attacks_of_all(
                    self@.take(i as int),
                    char_pos,
                    now,
                ),
                queues.apply_area_statuses@ == old(queues).apply_area_statuses@
                    + area_statuses_of_all(self@.take(i as int), self_char_id, char_pos, now),
                queues.apply_statuses@ == old(queues).apply_statuses@,
            decreases self@.len() - i,
        {
            let ghost before_attacks = queues.area_attacks@;
            let ghost before_statuses = queues.apply_area_statuses@;
            let result = self.statuses[i].update(self_char_id, char_pos, now, queues);
            proof {
                let t = self@.take(i as int + 1);
                assert(t.drop_last() =~= self@.take(i as int));
                assert(t.last() == self@[i as int]);
                assert(queues.area_attacks@ =~= old(queues).area_attacks@ + area_attacks_of_all(
                    t,
                    char_pos,
                    now,
                ));
                assert(queues.apply_area_statuses@ =~= old(queues).apply_area_statuses@
                    + area_statuses_of_all(t, self_char_id, char_pos, now));
            }
            match result {
                StatusUpdateResult::RemoveIt => {
                    let ghost old_mask = mask;
                    mask = mask | (1u32 << (i as u32));
                    proof {
                        assert forall|j: int| 0 <= j < 32 implies #[trigger] bit_set(mask, j) == (j
                            == i || bit_set(old_mask, j)) by {
                            lemma_modify_bit(old_mask, i as u32, j as u32);
                        }
                        lemma_set_bit_nonzero(old_mask, i as u32);
                    }
                },
                StatusUpdateResult::KeepIt => {},
            }
            i = i + 1;
        }
        assert(self@.take(self@.len() as int) =~= self@);
        mask
    }

    /// Removes the statuses whose bits are set in `mask`, keeping the order
    /// of the others.
    pub fn remove_statuses(&mut self, mask: u32)
        requires
            old(self).wf(),
        ensures
            final(self)@ == keep_unmasked(old(self)@, mask),
            final(self).wf(),
    {
        let mut kept: Vec<Status> = Vec::new();
        let mut i: usize = 0;
        while i < self.statuses.len()
            invariant
                0 <= i <= self@.len() <= 32,
                self@ == old(self)@,
                kept@ == keep_unmasked(self@.take(i as int), mask),
                kept@.len() <= i,
            decreases self@.len() - i,
        {
            proof {
                let t = self@.take(i as int + 1);
                assert(t.drop_last() =~= self@.take(i as int));
                assert(t.last() == self@[i as int]);
            }
            if (mask >> (i as u32)) & 1u32 != 1u32 {
                kept.push(self.statuses[i]);
            }
            i = i + 1;
        }
        assert(self@.take(self@.len() as int) =~= self@);
        self.statuses = kept;
    }
}

} // verus!
