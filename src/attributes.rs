use vstd::prelude::*;

use crate::percentage::{
    Percentage, apply_fits, apply_spec, fits_i32, lemma_tdiv_scaled, limit_spec, of_spec, percentage,
    tdiv,
};
use crate::time::ElapsedTime;

verus! {

/// A change to one attribute, contributed by a status.
#[derive(Copy, Clone, Debug, PartialEq, Eq, Structural)]
pub enum CharAttributeModifier {
    /// Adds percentage points; valid on percentage attributes only.
    AddPercentage(Percentage),
    /// Adds a plain amount; valid on scalar attributes only.
    AddValue(i32),
    /// Multiplies by `1 + p`; valid on every attribute.
    IncreaseByPercentage(Percentage),
}

impl CharAttributeModifier {
    pub open spec fn is_valid_for_percentage(self) -> bool {
        !(self is AddValue)
    }

    pub open spec fn is_valid_for_scalar(self) -> bool {
        !(self is AddPercentage)
    }
}

/// The attributes a modifier can target.
#[derive(Copy, Clone, Debug, PartialEq, Eq, Structural)]
pub enum Attribute {
    MaxHp,
    AttackDamage,
    MovementSpeed,
    AttackRange,
    AttackSpeed,
    Armor,
    Healing,
    HpRegen,
    ManaRegen,
}

/// Lowest and highest attack speed after modifiers, in raw percentage units.
pub const ATTACK_SPEED_MIN: i32 = -300_000;
pub const ATTACK_SPEED_MAX: i32 = 500_000;
/// Lowest and highest armor after modifiers, in raw percentage units.
pub const ARMOR_MIN: i32 = -100_000;
pub const ARMOR_MAX: i32 = 100_000;

// ---------------------------------------------------------------------------
// Folding a list of modifiers over a value

/// A scalar attribute after one modifier.
pub open spec fn scalar_step(v: int, m: CharAttributeModifier) -> int {
    match m {
        CharAttributeModifier::AddPercentage(_) => v,
        CharAttributeModifier::AddValue(x) => v + x,
        CharAttributeModifier::IncreaseByPercentage(p) => v + of_spec(p.value(), v),
    }
}

/// The modifier is valid for a scalar attribute, its 64-bit intermediate
/// fits, and the result stays within `[lo, hi]`.
pub open spec fn scalar_step_fits(v: int, m: CharAttributeModifier, lo: int, hi: int) -> bool {
    &&& m.is_valid_for_scalar()
    &&& lo <= scalar_step(v, m) <= hi
    &&& (m matches CharAttributeModifier::IncreaseByPercentage(p) ==> {
        &&& i64::MIN <= v * 10 * p.value() <= i64::MAX
        &&& fits_i32(of_spec(p.value(), v))
    })
}

/// A scalar attribute after all `mods`, applied in order.
pub open spec fn fold_scalar(v: int, mods: Seq<CharAttributeModifier>) -> int
    decreases mods.len(),
{
    if mods.len() == 0 {
        v
    } else {
        scalar_step(fold_scalar(v, mods.drop_last()), mods.last())
    }
}

/// A percentage attribute (raw value) after all `mods`, applied in order.
pub open spec fn fold_percentage(v: int, mods: Seq<CharAttributeModifier>) -> int
    decreases mods.len(),
{
    if mods.len() == 0 {
        v
    } else {
        apply_spec(fold_percentage(v, mods.drop_last()), mods.last())
    }
}

/// Every modifier is valid for a scalar attribute and every intermediate
/// value stays within `[lo, hi]`.
pub open spec fn scalar_mods_fit(v: int, mods: Seq<CharAttributeModifier>, lo: int, hi: int) -> bool {
    forall|i: int|
        0 <= i < mods.len() ==> #[trigger] scalar_step_fits(
            fold_scalar(v, mods.take(i)),
            mods[i],
            lo,
            hi,
        )
}

/// Every modifier is valid for a percentage attribute and every
/// intermediate value stays within `i32`.
pub open spec fn percentage_mods_fit(v: int, mods: Seq<CharAttributeModifier>) -> bool {
    forall|i: int|
        0 <= i < mods.len() ==> #[trigger] apply_fits(fold_percentage(v, mods.take(i)), mods[i])
}

/// One step of a percentage fold, checked: `None` exactly when the modifier
/// is invalid for a percentage or leaves the `i32` range.
fn percentage_step_checked(v: i32, m: &CharAttributeModifier) -> (r: Option<i32>)
    ensures
        r is Some <==> apply_fits(v as int, *m),
        r matches Some(x) ==> x == apply_spec(v as int, *m),
{
    match m {
        CharAttributeModifier::AddPercentage(p) => {
            let s = v as i64 + p.raw() as i64;
            if s < i32::MIN as i64 || s > i32::MAX as i64 {
                None
            } else {
                Some(s as i32)
            }
        },
        CharAttributeModifier::AddValue(_) => None,
        CharAttributeModifier::IncreaseByPercentage(p) => {
            let q = v / 100;
            assert(-21_474_837 <= q <= 21_474_837);
            let a = q as i64;
            let b = p.raw() as i64;
            assert(-21_474_837 * 2_147_483_648 <= a * b <= 21_474_837 * 2_147_483_648)
                by (nonlinear_arith)
                requires
                    -21_474_837 <= a <= 21_474_837,
                    -2_147_483_648 <= b <= 2_147_483_647,
            ;
            let prod = a * b;
            if prod < i32::MIN as i64 || prod > i32::MAX as i64 {
                None
            } else {
                let s = v as i64 + prod / 1000;
                if s < i32::MIN as i64 || s > i32::MAX as i64 {
                    None
                } else {
                    Some(Percentage::from_raw(v).increase_by(*p).raw())
                }
            }
        },
    }
}

/// One step of a scalar fold, checked: `None` exactly when the modifier is
/// invalid for a scalar or the result leaves `[lo, hi]`.
fn scalar_step_checked(v: i32, m: &CharAttributeModifier, lo: i32, hi: i32) -> (r: Option<i32>)
    ensures
        r is Some <==> scalar_step_fits(v as int, *m, lo as int, hi as int),
        r matches Some(x) ==> x == scalar_step(v as int, *m),
{
    match m {
        CharAttributeModifier::AddPercentage(_) => None,
        CharAttributeModifier::AddValue(x) => {
            let s = v as i64 + *x as i64;
            if s < lo as i64 || s > hi as i64 {
                None
            } else {
                Some(s as i32)
            }
        },
        CharAttributeModifier::IncreaseByPercentage(p) => {
            let a = v as i128 * 10;
            let b = p.raw() as i128;
            assert(-21_474_836_480 * 2_147_483_648 <= a * b <= 21_474_836_480 * 2_147_483_648)
                by (nonlinear_arith)
                requires
                    -21_474_836_480 <= a <= 21_474_836_480,
                    -2_147_483_648 <= b <= 2_147_483_647,
            ;
            let wide = a * b;
            if wide < i64::MIN as i128 || wide > i64::MAX as i128 {
                None
            } else {
                let change = wide / 1_000_000;
                proof {
                    lemma_tdiv_scaled(v * p.value(), 10, 100_000);
                    assert(v * 10 * p.value() == 10 * (v * p.value())) by (nonlinear_arith);
                }
                if change < i32::MIN as i128 || change > i32::MAX as i128 {
                    None
                } else {
                    let s = v as i64 + change as i64;
                    if s < lo as i64 || s > hi as i64 {
                        None
                    } else {
                        Some(s as i32)
                    }
                }
            }
        },
    }
}

proof fn lemma_take_last<T>(s: Seq<T>, i: int)
    requires
        0 <= i < s.len(),
    ensures
        s.take(i + 1).drop_last() == s.take(i),
        s.take(i + 1).last() == s[i],
{
    assert(s.take(i + 1).drop_last() =~= s.take(i));
}

/// Folds `mods` over a percentage attribute; `None` exactly when some step
/// is invalid or leaves the `i32` range.
fn fold_percentage_checked(v: i32, mods: &Vec<CharAttributeModifier>) -> (r: Option<i32>)
    ensures
        r is Some <==> percentage_mods_fit(v as int, mods@),
        r matches Some(x) ==> x == fold_percentage(v as int, mods@),
{
    let mut cur = v;
    let mut i: usize = 0;
    while i < mods.len()
        invariant
            0 <= i <= mods@.len(),
            cur == fold_percentage(v as int, mods@.take(i as int)),
            forall|j: int|
                0 <= j < i ==> #[trigger] apply_fits(
                    fold_percentage(v as int, mods@.take(j)),
                    mods@[j],
                ),
        decreases mods.len() - i,
    {
        proof {
            lemma_take_last(mods@, i as int);
        }
        match percentage_step_checked(cur, &mods[i]) {
            Some(next) => {
                cur = next;
            },
            None => {
                return None;
            },
        }
        i = i + 1;
    }
    assert(mods@.take(mods@.len() as int) =~= mods@);
    Some(cur)
}

/// Folds `mods` over a scalar attribute; `None` exactly when some step is
/// invalid or leaves `[lo, hi]`.
fn fold_scalar_checked(v: i32, mods: &Vec<CharAttributeModifier>, lo: i32, hi: i32) -> (r: Option<i32>)
    requires
        lo <= v <= hi,
    ensures
        r matches Some(x) ==> lo <= x <= hi,
        r is Some <==> scalar_mods_fit(v as int, mods@, lo as int, hi as int),
        r matches Some(x) ==> x == fold_scalar(v as int, mods@),
{
    let mut cur = v;
    let mut i: usize = 0;
    while i < mods.len()
        invariant
            0 <= i <= mods@.len(),
            cur == fold_scalar(v as int, mods@.take(i as int)),
            lo <= cur <= hi,
            forall|j: int|
                0 <= j < i ==> #[trigger] scalar_step_fits(
                    fold_scalar(v as int, mods@.take(j)),
                    mods@[j],
                    lo as int,
                    hi as int,
                ),
        decreases mods.len() - i,
    {
        proof {
            lemma_take_last(mods@, i as int);
        }
        match scalar_step_checked(cur, &mods[i], lo, hi) {
            Some(next) => {
                cur = next;
            },
            None => {
                return None;
            },
        }
        i = i + 1;
    }
    assert(mods@.take(mods@.len() as int) =~= mods@);
    Some(cur)
}

// ---------------------------------------------------------------------------
// Attributes

/// Base or calculated attributes of a character.
#[derive(Copy, Clone, Debug, PartialEq, Eq, Structural)]
pub struct CharAttributes {
    pub max_hp: i32,
    pub attack_damage: u16,
    pub movement_speed: Percentage,
    pub attack_range: Percentage,
    pub attack_speed: Percentage,
    pub armor: Percentage,
    pub healing: Percentage,
    pub hp_regen: Percentage,
    pub mana_regen: Percentage,
}

/// The difference between calculated and base attributes, with the bonus
/// windows behind it; for display only.
#[derive(Copy, Clone, Debug, PartialEq, Eq, Structural)]
pub struct CharAttributesBonuses {
    pub attrs: CharAttributes,
    pub durations: BonusDurations,
}

impl CharAttributes {
    pub fn zero() -> (r: CharAttributes)
        ensures
            r.max_hp == 0,
            r.attack_damage == 0,
            r.movement_speed.value() == 0,
            r.attack_range.value() == 0,
            r.attack_speed.value() == 0,
            r.armor.value() == 0,
            r.healing.value() == 0,
            r.hp_regen.value() == 0,
            r.mana_regen.value() == 0,
    {
        CharAttributes {
            movement_speed: percentage(0),
            attack_range: percentage(0),
            attack_speed: percentage(0),
            attack_damage: 0,
            armor: percentage(0),
            healing: percentage(0),
            hp_regen: percentage(0),
            max_hp: 0,
            mana_regen: percentage(0),
        }
    }

    /// Field by field `self - other`, wrapping on overflow, and the bonus
    /// windows of `collector`.
    pub fn differences(
        &self,
        other: &CharAttributes,
        collector: &CharAttributeModifierCollector,
    ) -> (r: CharAttributesBonuses)
        ensures
            r.attrs.max_hp == self.max_hp.wrapping_sub(other.max_hp),
            r.attrs.attack_damage == self.attack_damage.wrapping_sub(other.attack_damage),
            r.attrs.movement_speed.value() == wrapping_delta(self.movement_speed, other.movement_speed),
            r.attrs.attack_range.value() == wrapping_delta(self.attack_range, other.attack_range),
            r.attrs.attack_speed.value() == wrapping_delta(self.attack_speed, other.attack_speed),
            r.attrs.armor.value() == wrapping_delta(self.armor, other.armor),
            r.attrs.healing.value() == wrapping_delta(self.healing, other.healing),
            r.attrs.hp_regen.value() == wrapping_delta(self.hp_regen, other.hp_regen),
            r.attrs.mana_regen.value() == wrapping_delta(self.mana_regen, other.mana_regen),
            r.durations == collector.durations(),
    {
        CharAttributesBonuses {
            attrs: CharAttributes {
                max_hp: self.max_hp.wrapping_sub(other.max_hp),
                attack_damage: self.attack_damage.wrapping_sub(other.attack_damage),
                movement_speed: delta(self.movement_speed, other.movement_speed),
                attack_range: delta(self.attack_range, other.attack_range),
                attack_speed: delta(self.attack_speed, other.attack_speed),
                armor: delta(self.armor, other.armor),
                healing: delta(self.healing, other.healing),
                hp_regen: delta(self.hp_regen, other.hp_regen),
                mana_regen: delta(self.mana_regen, other.mana_regen),
            },
            durations: collector.durations,
        }
    }

    /// `r` is `self` with every modifier list `mods(a)` applied in
    /// order, attack speed and armor then clamped to their hard limits.
    pub open spec fn applied_mods(
        self,
        mods: spec_fn(Attribute) -> Seq<CharAttributeModifier>,
        r: CharAttributes,
    ) -> bool {
        &&& r.max_hp == fold_scalar(self.max_hp as int, mods(Attribute::MaxHp))
        &&& r.attack_damage == fold_scalar(
            self.attack_damage as int,
            mods(Attribute::AttackDamage),
        )
        &&& r.movement_speed.value() == fold_percentage(
            self.movement_speed.value(),
            mods(Attribute::MovementSpeed),
        )
        &&& r.attack_range.value() == fold_percentage(
            self.attack_range.value(),
            mods(Attribute::AttackRange),
        )
        &&& r.attack_speed.value() == limit_spec(
            fold_percentage(self.attack_speed.value(), mods(Attribute::AttackSpeed)),
            ATTACK_SPEED_MIN as int,
            ATTACK_SPEED_MAX as int,
        )
        &&& r.armor.value() == limit_spec(
            fold_percentage(self.armor.value(), mods(Attribute::Armor)),
            ARMOR_MIN as int,
            ARMOR_MAX as int,
        )
        &&& r.healing.value() == fold_percentage(
            self.healing.value(),
            mods(Attribute::Healing),
        )
        &&& r.hp_regen.value() == fold_percentage(
            self.hp_regen.value(),
            mods(Attribute::HpRegen),
        )
        &&& r.mana_regen.value() == fold_percentage(
            self.mana_regen.value(),
            mods(Attribute::ManaRegen),
        )
    }

    /// Every modifier of `mods` suits the kind of its attribute and no
    /// intermediate value leaves the attribute's range.
    pub open spec fn mods_fit(self, mods: spec_fn(Attribute) -> Seq<CharAttributeModifier>) -> bool {
        &&& scalar_mods_fit(
            self.max_hp as int,
            mods(Attribute::MaxHp),
            i32::MIN as int,
            i32::MAX as int,
        )
        &&& scalar_mods_fit(
            self.attack_damage as int,
            mods(Attribute::AttackDamage),
            0,
            u16::MAX as int,
        )
        &&& percentage_mods_fit(
            self.movement_speed.value(),
            mods(Attribute::MovementSpeed),
        )
        &&& percentage_mods_fit(self.attack_range.value(), mods(Attribute::AttackRange))
        &&& percentage_mods_fit(self.attack_speed.value(), mods(Attribute::AttackSpeed))
        &&& percentage_mods_fit(self.armor.value(), mods(Attribute::Armor))
        &&& percentage_mods_fit(self.healing.value(), mods(Attribute::Healing))
        &&& percentage_mods_fit(self.hp_regen.value(), mods(Attribute::HpRegen))
        &&& percentage_mods_fit(self.mana_regen.value(), mods(Attribute::ManaRegen))
    }

    /// `applied_mods` with the lists of a collector.
    pub open spec fn applied(self, modifiers: CharAttributeModifierCollector, r: CharAttributes) -> bool {
        self.applied_mods(|a: Attribute| modifiers.mods(a), r)
    }

    /// `mods_fit` with the lists of a collector.
    pub open spec fn modifiers_fit(self, modifiers: CharAttributeModifierCollector) -> bool {
        self.mods_fit(|a: Attribute| modifiers.mods(a))
    }

    /// The attributes after all modifiers of `modifiers`. A modifier that does
    /// not suit its attribute (a plain value on a percentage, a percentage
    /// added to a scalar) is a misconfiguration and is excluded by the
    /// precondition, as is overflow.
    pub fn apply(&self, modifiers: &CharAttributeModifierCollector) -> (r: CharAttributes)
        requires
            self.modifiers_fit(*modifiers),
        ensures
            self.applied(*modifiers, r),
            ATTACK_SPEED_MIN <= r.attack_speed.value() <= ATTACK_SPEED_MAX,
            ARMOR_MIN <= r.armor.value() <= ARMOR_MAX,
    {
        match self.try_apply(modifiers) {
            Some(r) => r,
            None => vstd::pervasive::unreached(),
        }
    }

    /// `apply`, checked: `None` exactly when some modifier does not suit its
    /// attribute or an intermediate value leaves its range.
    pub fn try_apply(&self, modifiers: &CharAttributeModifierCollector) -> (r: Option<CharAttributes>)
        ensures
            r is Some <==> self.modifiers_fit(*modifiers),
            r matches Some(a) ==> self.applied(*modifiers, a),
            r matches Some(a) ==> ATTACK_SPEED_MIN <= a.attack_speed.value() <= ATTACK_SPEED_MAX,
            r matches Some(a) ==> ARMOR_MIN <= a.armor.value() <= ARMOR_MAX,
    {
        let max_hp = fold_scalar_checked(self.max_hp, &modifiers.max_hp, i32::MIN, i32::MAX);
        let attack_damage = fold_scalar_checked(
            self.attack_damage as i32,
            &modifiers.attack_damage,
            0,
            u16::MAX as i32,
        );
        let movement_speed = fold_percentage_checked(
            self.movement_speed.raw(),
            &modifiers.movement_speed,
        );
        let attack_range = fold_percentage_checked(self.attack_range.raw(), &modifiers.attack_range);
        let attack_speed = fold_percentage_checked(self.attack_speed.raw(), &modifiers.attack_speed);
        let armor = fold_percentage_checked(self.armor.raw(), &modifiers.armor);
        let healing = fold_percentage_checked(self.healing.raw(), &modifiers.healing);
        let hp_regen = fold_percentage_checked(self.hp_regen.raw(), &modifiers.hp_regen);
        let mana_regen = fold_percentage_checked(self.mana_regen.raw(), &modifiers.mana_regen);
        match (
            max_hp,
            attack_damage,
            movement_speed,
            attack_range,
            attack_speed,
            armor,
            healing,
            hp_regen,
            mana_regen,
        ) {
            (
                Some(max_hp),
                Some(attack_damage),
                Some(movement_speed),
                Some(attack_range),
                Some(attack_speed),
                Some(armor),
                Some(healing),
                Some(hp_regen),
                Some(mana_regen),
            ) => {
                let mut attack_speed = Percentage::from_raw(attack_speed);
                attack_speed.limit(
                    Percentage::from_raw(ATTACK_SPEED_MIN),
                    Percentage::from_raw(ATTACK_SPEED_MAX),
                );
                let mut armor = Percentage::from_raw(armor);
                armor.limit(Percentage::from_raw(ARMOR_MIN), Percentage::from_raw(ARMOR_MAX));
                Some(
                    CharAttributes {
                        max_hp,
                        attack_damage: attack_damage as u16,
                        movement_speed: Percentage::from_raw(movement_speed),
                        attack_range: Percentage::from_raw(attack_range),
                        attack_speed,
                        armor,
                        healing: Percentage::from_raw(healing),
                        hp_regen: Percentage::from_raw(hp_regen),
                        mana_regen: Percentage::from_raw(mana_regen),
                    },
                )
            },
            _ => None,
        }
    }
}

/// `a - b` on raw values, wrapping on overflow.
pub open spec fn wrapping_delta(a: Percentage, b: Percentage) -> int {
    (a.value() as i32).wrapping_sub(b.value() as i32) as int
}

fn delta(a: Percentage, b: Percentage) -> (r: Percentage)
    ensures
        r.value() == wrapping_delta(a, b),
{
    let d = a.raw().wrapping_sub(b.raw());
    Percentage::from_raw(d)
}

// ---------------------------------------------------------------------------
// Bonus windows

/// When a bonus on one attribute started and when it ends.
#[derive(Copy, Clone, Debug, PartialEq, Eq, Structural)]
pub struct BonusWindow {
    pub started_at: ElapsedTime,
    pub ends_at: ElapsedTime,
}

/// `current` merged with a new window: the one that ends later wins, its
/// start going with it; on a tie the current one stays.
pub open spec fn merge_window_spec(
    current: Option<BonusWindow>,
    started_at: ElapsedTime,
    ends_at: ElapsedTime,
) -> Option<BonusWindow> {
    match current {
        Some(w) => if ends_at.0 > w.ends_at.0 {
            Some(BonusWindow { started_at, ends_at })
        } else {
            current
        },
        None => Some(BonusWindow { started_at, ends_at }),
    }
}

/// The bonus window of each attribute; `None` where no bonus is active.
#[derive(Copy, Clone, Debug, PartialEq, Eq, Structural)]
pub struct BonusDurations {
    pub max_hp: Option<BonusWindow>,
    pub walking_speed: Option<BonusWindow>,
    pub attack_range: Option<BonusWindow>,
    pub attack_speed: Option<BonusWindow>,
    pub attack_damage: Option<BonusWindow>,
    pub armor: Option<BonusWindow>,
    pub healing: Option<BonusWindow>,
    pub hp_regen: Option<BonusWindow>,
    pub mana_regen: Option<BonusWindow>,
}

impl BonusDurations {
    /// No bonus window on any attribute.
    pub fn with_invalid_times() -> (r: BonusDurations)
        ensures
            forall|a: Attribute| #[trigger] r.get(a) is None,
    {
        BonusDurations {
            max_hp: None,
            walking_speed: None,
            attack_range: None,
            attack_speed: None,
            attack_damage: None,
            armor: None,
            healing: None,
            hp_regen: None,
            mana_regen: None,
        }
    }

    pub open spec fn get(self, a: Attribute) -> Option<BonusWindow> {
        match a {
            Attribute::MaxHp => self.max_hp,
            Attribute::AttackDamage => self.attack_damage,
            Attribute::MovementSpeed => self.walking_speed,
            Attribute::AttackRange => self.attack_range,
            Attribute::AttackSpeed => self.attack_speed,
            Attribute::Armor => self.armor,
            Attribute::Healing => self.healing,
            Attribute::HpRegen => self.hp_regen,
            Attribute::ManaRegen => self.mana_regen,
        }
    }
}

fn set_durations(new_started_at: ElapsedTime, new_ends_at: ElapsedTime, current: &mut Option<BonusWindow>)
    ensures
        *final(current) == merge_window_spec(*old(current), new_started_at, new_ends_at),
{
    let replace = match current {
        Some(w) => new_ends_at.has_not_passed_yet(w.ends_at),
        None => true,
    };
    if replace {
        *current = Some(BonusWindow { started_at: new_started_at, ends_at: new_ends_at });
    }
}

// ---------------------------------------------------------------------------
// Collector

/// Per-recompute scratch buffer: the modifiers of each attribute in the order
/// they were contributed, and the bonus window of each attribute.
#[derive(Clone, Debug)]
pub struct CharAttributeModifierCollector {
    max_hp: Vec<CharAttributeModifier>,
    movement_speed: Vec<CharAttributeModifier>,
    attack_range: Vec<CharAttributeModifier>,
    attack_speed: Vec<CharAttributeModifier>,
    attack_damage: Vec<CharAttributeModifier>,
    armor: Vec<CharAttributeModifier>,
    healing: Vec<CharAttributeModifier>,
    hp_regen: Vec<CharAttributeModifier>,
    mana_regen: Vec<CharAttributeModifier>,
    durations: BonusDurations,
}

impl CharAttributeModifierCollector {
    /// The modifiers collected for `a`, in order.
    pub closed spec fn mods(self, a: Attribute) -> Seq<CharAttributeModifier> {
        match a {
            Attribute::MaxHp => self.max_hp@,
            Attribute::AttackDamage => self.attack_damage@,
            Attribute::MovementSpeed => self.movement_speed@,
            Attribute::AttackRange => self.attack_range@,
            Attribute::AttackSpeed => self.attack_speed@,
            Attribute::Armor => self.armor@,
            Attribute::Healing => self.healing@,
            Attribute::HpRegen => self.hp_regen@,
            Attribute::ManaRegen => self.mana_regen@,
        }
    }

    /// The bonus windows collected so far.
    pub closed spec fn durations(self) -> BonusDurations {
        self.durations
    }

    /// Nothing collected: no modifier and no bonus window on any attribute.
    pub open spec fn is_empty(self) -> bool {
        forall|a: Attribute| {
            &&& (#[trigger] self.mods(a)).len() == 0
            &&& self.durations().get(a) is None
        }
    }

    pub fn new() -> (r: CharAttributeModifierCollector)
        ensures
            r.is_empty(),
    {
        CharAttributeModifierCollector {
            max_hp: Vec::new(),
            movement_speed: Vec::new(),
            attack_range: Vec::new(),
            attack_speed: Vec::new(),
            attack_damage: Vec::new(),
            armor: Vec::new(),
            healing: Vec::new(),
            hp_regen: Vec::new(),
            mana_regen: Vec::new(),
            durations: BonusDurations::with_invalid_times(),
        }
    }

    /// The bonus windows collected so far.
    pub fn bonus_durations(&self) -> (r: BonusDurations)
        ensures
            r == self.durations(),
    {
        self.durations
    }

    /// Appends `modifier` to the list of `attribute` and merges
    /// `[started, until]` into its bonus window; nothing else changes.
    pub fn change(
        &mut self,
        attribute: Attribute,
        modifier: CharAttributeModifier,
        started: ElapsedTime,
        until: ElapsedTime,
    )
        ensures
            final(self).mods(attribute) == old(self).mods(attribute).push(modifier),
            final(self).durations().get(attribute) == merge_window_spec(
                old(self).durations().get(attribute),
                started,
                until,
            ),
            forall|a: Attribute|
                a != attribute ==> {
                    &&& #[trigger] final(self).mods(a) == old(self).mods(a)
                    &&& final(self).durations().get(a) == old(self).durations().get(a)
                },
    {
        match attribute {
            Attribute::MaxHp => {
                set_durations(started, until, &mut self.durations.max_hp);
                self.max_hp.push(modifier);
            },
            Attribute::AttackDamage => {
                set_durations(started, until, &mut self.durations.attack_damage);
                self.attack_damage.push(modifier);
            },
            Attribute::MovementSpeed => {
                set_durations(started, until, &mut self.durations.walking_speed);
                self.movement_speed.push(modifier);
            },
            Attribute::AttackRange => {
                set_durations(started, until, &mut self.durations.attack_range);
                self.attack_range.push(modifier);
            },
            Attribute::AttackSpeed => {
                set_durations(started, until, &mut self.durations.attack_speed);
                self.attack_speed.push(modifier);
            },
            Attribute::Armor => {
                set_durations(started, until, &mut self.durations.armor);
                self.armor.push(modifier);
            },
            Attribute::Healing => {
                set_durations(started, until, &mut self.durations.healing);
                self.healing.push(modifier);
            },
            Attribute::HpRegen => {
                set_durations(started, until, &mut self.durations.hp_regen);
                self.hp_regen.push(modifier);
            },
            Attribute::ManaRegen => {
                set_durations(started, until, &mut self.durations.mana_regen);
                self.mana_regen.push(modifier);
            },
        }
    }

    pub fn change_attack_damage(&mut self, modifier: CharAttributeModifier, started: ElapsedTime, until: ElapsedTime)
        ensures
            final(self).mods(Attribute::AttackDamage) == old(self).mods(Attribute::AttackDamage).push(modifier),
            final(self).durations().get(Attribute::AttackDamage) == merge_window_spec(
                old(self).durations().get(Attribute::AttackDamage),
                started,
                until,
            ),
            forall|a: Attribute|
                a != Attribute::AttackDamage ==> {
                    &&& #[trigger] final(self).mods(a) == old(self).mods(a)
                    &&& final(self).durations().get(a) == old(self).durations().get(a)
                },
    {
        self.change(Attribute::AttackDamage, modifier, started, until);
    }

    pub fn change_attack_speed(&mut self, modifier: CharAttributeModifier, started: ElapsedTime, until: ElapsedTime)
        ensures
            final(self).mods(Attribute::AttackSpeed) == old(self).mods(Attribute::AttackSpeed).push(modifier),
            final(self).durations().get(Attribute::AttackSpeed) == merge_window_spec(
                old(self).durations().get(Attribute::AttackSpeed),
                started,
                until,
            ),
            forall|a: Attribute|
                a != Attribute::AttackSpeed ==> {
                    &&& #[trigger] final(self).mods(a) == old(self).mods(a)
                    &&& final(self).durations().get(a) == old(self).durations().get(a)
                },
    {
        self.change(Attribute::AttackSpeed, modifier, started, until);
    }

    pub fn change_armor(&mut self, modifier: CharAttributeModifier, started: ElapsedTime, until: ElapsedTime)
        ensures
            final(self).mods(Attribute::Armor) == old(self).mods(Attribute::Armor).push(modifier),
            final(self).durations().get(Attribute::Armor) == merge_window_spec(
                old(self).durations().get(Attribute::Armor),
                started,
                until,
            ),
            forall|a: Attribute|
                a != Attribute::Armor ==> {
                    &&& #[trigger] final(self).mods(a) == old(self).mods(a)
                    &&& final(self).durations().get(a) == old(self).durations().get(a)
                },
    {
        self.change(Attribute::Armor, modifier, started, until);
    }

    pub fn change_attack_range(&mut self, modifier: CharAttributeModifier, started: ElapsedTime, until: ElapsedTime)
        ensures
            final(self).mods(Attribute::AttackRange) == old(self).mods(Attribute::AttackRange).push(modifier),
            final(self).durations().get(Attribute::AttackRange) == merge_window_spec(
                old(self).durations().get(Attribute::AttackRange),
                started,
                until,
            ),
            forall|a: Attribute|
                a != Attribute::AttackRange ==> {
                    &&& #[trigger] final(self).mods(a) == old(self).mods(a)
                    &&& final(self).durations().get(a) == old(self).durations().get(a)
                },
    {
        self.change(Attribute::AttackRange, modifier, started, until);
    }

    pub fn change_walking_speed(&mut self, modifier: CharAttributeModifier, started: ElapsedTime, until: ElapsedTime)
        ensures
            final(self).mods(Attribute::MovementSpeed) == old(self).mods(Attribute::MovementSpeed).push(modifier),
            final(self).durations().get(Attribute::MovementSpeed) == merge_window_spec(
                old(self).durations().get(Attribute::MovementSpeed),
                started,
                until,
            ),
            forall|a: Attribute|
                a != Attribute::MovementSpeed ==> {
                    &&& #[trigger] final(self).mods(a) == old(self).mods(a)
                    &&& final(self).durations().get(a) == old(self).durations().get(a)
                },
    {
        self.change(Attribute::MovementSpeed, modifier, started, until);
    }

    /// Removes every modifier and bonus window.
    pub fn clear(&mut self)
        ensures
            final(self).is_empty(),
    {
        self.max_hp.clear();
        self.movement_speed.clear();
        self.attack_range.clear();
        self.attack_speed.clear();
        self.attack_damage.clear();
        self.armor.clear();
        self.healing.clear();
        self.hp_regen.clear();
        self.mana_regen.clear();
        self.durations = BonusDurations::with_invalid_times();
    }
}

/// A percentage added to a scalar attribute, or a plain value added to a
/// percentage attribute, is never accepted: `apply` excludes it and
/// `try_apply` answers `None`, whatever the other modifiers are.
pub proof fn lemma_misapplied_modifier_rejected(
    base: CharAttributes,
    modifiers: CharAttributeModifierCollector,
    attribute: Attribute,
    i: int,
)
    requires
        0 <= i < modifiers.mods(attribute).len(),
        match attribute {
            Attribute::MaxHp | Attribute::AttackDamage => modifiers.mods(attribute)[i] is AddPercentage,
            _ => modifiers.mods(attribute)[i] is AddValue,
        },
    ensures
        !base.modifiers_fit(modifiers),
{
    let mods = modifiers.mods(attribute);
    match attribute {
        Attribute::MaxHp => {
            assert(!scalar_step_fits(
                fold_scalar(base.max_hp as int, mods.take(i)),
                mods[i],
                i32::MIN as int,
                i32::MAX as int,
            ));
        },
        Attribute::AttackDamage => {
            assert(!scalar_step_fits(
                fold_scalar(base.attack_damage as int, mods.take(i)),
                mods[i],
                0,
                u16::MAX as int,
            ));
        },
        Attribute::MovementSpeed => {
            assert(!apply_fits(fold_percentage(base.movement_speed.value(), mods.take(i)), mods[i]));
        },
        Attribute::AttackRange => {
            assert(!apply_fits(fold_percentage(base.attack_range.value(), mods.take(i)), mods[i]));
        },
        Attribute::AttackSpeed => {
            assert(!apply_fits(fold_percentage(base.attack_speed.value(), mods.take(i)), mods[i]));
        },
        Attribute::Armor => {
            assert(!apply_fits(fold_percentage(base.armor.value(), mods.take(i)), mods[i]));
        },
        Attribute::Healing => {
            assert(!apply_fits(fold_percentage(base.healing.value(), mods.take(i)), mods[i]));
        },
        Attribute::HpRegen => {
            assert(!apply_fits(fold_percentage(base.hp_regen.value(), mods.take(i)), mods[i]));
        },
        Attribute::ManaRegen => {
            assert(!apply_fits(fold_percentage(base.mana_regen.value(), mods.take(i)), mods[i]));
        },
    }
}

/// Whatever modifiers are stacked, recomputed attack speed stays within
/// [-300%, 500%] and armor within [-100%, 100%].
pub proof fn lemma_recomputed_limits_hold(
    base: CharAttributes,
    modifiers: CharAttributeModifierCollector,
    r: CharAttributes,
)
    requires
        base.applied(modifiers, r),
    ensures
        ATTACK_SPEED_MIN <= r.attack_speed.value() <= ATTACK_SPEED_MAX,
        ARMOR_MIN <= r.armor.value() <= ARMOR_MAX,
{
}

} // verus!
