use rustarok::attributes::{
    Attribute, BonusDurations, CharAttributeModifier, CharAttributeModifierCollector, CharAttributes,
};
use rustarok::percentage::percentage;
use rustarok::time::ElapsedTime;

fn base() -> CharAttributes {
    CharAttributes {
        max_hp: 2000,
        attack_damage: 100,
        movement_speed: percentage(100),
        attack_range: percentage(100),
        attack_speed: percentage(100),
        armor: percentage(10),
        healing: percentage(100),
        hp_regen: percentage(100),
        mana_regen: percentage(100),
    }
}

fn t(ms: i64) -> ElapsedTime {
    ElapsedTime(ms)
}

#[test]
fn modifiers_apply_in_order() {
    let mut c = CharAttributeModifierCollector::new();
    c.change(Attribute::MaxHp, CharAttributeModifier::AddValue(500), t(0), t(10));
    c.change(Attribute::MaxHp, CharAttributeModifier::IncreaseByPercentage(percentage(10)), t(0), t(10));
    c.change_attack_damage(CharAttributeModifier::IncreaseByPercentage(percentage(50)), t(0), t(10));
    c.change_attack_damage(CharAttributeModifier::AddValue(-20), t(0), t(10));
    c.change_walking_speed(CharAttributeModifier::AddPercentage(percentage(20)), t(0), t(10));
    c.change_attack_range(CharAttributeModifier::IncreaseByPercentage(percentage(-50)), t(0), t(10));
    let r = base().apply(&c);
    assert_eq!(r.max_hp, 2750);
    assert_eq!(r.attack_damage, 130);
    assert_eq!(r.movement_speed.as_i16(), 120);
    assert_eq!(r.attack_range.as_i16(), 50);
    assert_eq!(r.healing.as_i16(), 100);
}

#[test]
fn attack_speed_and_armor_are_clamped() {
    let mut c = CharAttributeModifierCollector::new();
    c.change_attack_speed(CharAttributeModifier::AddPercentage(percentage(1000)), t(0), t(10));
    c.change_armor(CharAttributeModifier::AddPercentage(percentage(-500)), t(0), t(10));
    let r = base().apply(&c);
    assert_eq!(r.attack_speed.as_i16(), 500);
    assert_eq!(r.armor.as_i16(), -100);

    let mut c = CharAttributeModifierCollector::new();
    c.change_attack_speed(CharAttributeModifier::AddPercentage(percentage(-1000)), t(0), t(10));
    c.change_armor(CharAttributeModifier::AddPercentage(percentage(500)), t(0), t(10));
    let r = base().apply(&c);
    assert_eq!(r.attack_speed.as_i16(), -300);
    assert_eq!(r.armor.as_i16(), 100);
}

#[test]
fn percentage_on_scalar_is_rejected() {
    let mut c = CharAttributeModifierCollector::new();
    c.change(Attribute::MaxHp, CharAttributeModifier::AddPercentage(percentage(10)), t(0), t(10));
    assert!(base().try_apply(&c).is_none());
    let mut c = CharAttributeModifierCollector::new();
    c.change_attack_damage(CharAttributeModifier::AddPercentage(percentage(10)), t(0), t(10));
    assert!(base().try_apply(&c).is_none());
}

#[test]
fn value_on_percentage_is_rejected() {
    let mut c = CharAttributeModifierCollector::new();
    c.change_armor(CharAttributeModifier::AddValue(5), t(0), t(10));
    assert!(base().try_apply(&c).is_none());
    let mut c = CharAttributeModifierCollector::new();
    c.change_walking_speed(CharAttributeModifier::AddValue(5), t(0), t(10));
    assert!(base().try_apply(&c).is_none());
}

#[test]
fn overflowing_damage_is_rejected() {
    let mut c = CharAttributeModifierCollector::new();
    c.change_attack_damage(CharAttributeModifier::AddValue(70_000), t(0), t(10));
    assert!(base().try_apply(&c).is_none());
    let mut c = CharAttributeModifierCollector::new();
    c.change_attack_damage(CharAttributeModifier::AddValue(-101), t(0), t(10));
    assert!(base().try_apply(&c).is_none());
}

#[test]
fn latest_ending_window_wins() {
    let mut c = CharAttributeModifierCollector::new();
    assert_eq!(c.bonus_durations(), BonusDurations::with_invalid_times());
    c.change_armor(CharAttributeModifier::AddPercentage(percentage(1)), t(100), t(500));
    c.change_armor(CharAttributeModifier::AddPercentage(percentage(1)), t(200), t(400));
    let w = c.bonus_durations().armor.unwrap();
    assert_eq!((w.started_at, w.ends_at), (t(100), t(500)));
    c.change_armor(CharAttributeModifier::AddPercentage(percentage(1)), t(300), t(900));
    let w = c.bonus_durations().armor.unwrap();
    assert_eq!((w.started_at, w.ends_at), (t(300), t(900)));
    assert!(c.bonus_durations().max_hp.is_none());
    c.clear();
    assert_eq!(c.bonus_durations(), BonusDurations::with_invalid_times());
}

#[test]
fn differences_are_field_deltas() {
    let mut c = CharAttributeModifierCollector::new();
    c.change_armor(CharAttributeModifier::AddPercentage(percentage(15)), t(0), t(1000));
    c.change_attack_damage(CharAttributeModifier::AddValue(-30), t(0), t(1000));
    let b = base();
    let calc = b.apply(&c);
    let d = calc.differences(&b, &c);
    assert_eq!(d.attrs.armor.as_i16(), 15);
    assert_eq!(d.attrs.max_hp, 0);
    assert_eq!(d.attrs.attack_damage as i16, -30);
    assert_eq!(d.durations.armor.unwrap().ends_at, t(1000));
}

#[test]
fn zero_attributes() {
    let z = CharAttributes::zero();
    assert_eq!(z.max_hp, 0);
    assert_eq!(z.attack_damage, 0);
    assert_eq!(z.armor.raw(), 0);
    assert_eq!(z.mana_regen.raw(), 0);
}
