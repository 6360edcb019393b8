use raid_race_lib::alive::{Agility, Defense, Dps, Health};
use raid_race_lib::message::EntityBits;
use raid_race_lib::status::{AgilityDown, DefenseUp, Poison, StackableStatusEffect};
use raid_race_lib::timer::NANOS_PER_SEC;

#[test]
fn poison_ticks_damage_until_it_runs_out() {
    let source = EntityBits::from_bits(42);
    let mut poison = Poison::new(source, 2 * NANOS_PER_SEC, 5 * NANOS_PER_SEC);
    assert_eq!(poison.source, source);
    let mut health = Health::new(100);
    // 60 DPS: a twentieth is 3, times two seconds of period: 6 per tick.
    assert_eq!(poison.tick_damage(Some(60)), 6);
    assert_eq!(poison.tick_damage(None), 0);
    assert!(!poison.step(NANOS_PER_SEC, &mut health, Some(60)));
    assert_eq!(health.0.current, 100);
    assert!(!poison.step(NANOS_PER_SEC, &mut health, Some(60)));
    assert_eq!(health.0.current, 94);
    assert!(!poison.step(2 * NANOS_PER_SEC, &mut health, Some(60)));
    assert_eq!(health.0.current, 88);
    // The total runs out: the poison expires without a last tick of damage.
    assert!(poison.step(2 * NANOS_PER_SEC, &mut health, Some(60)));
    assert_eq!(health.0.current, 88);
}

#[test]
fn poison_without_source_dps_deals_nothing() {
    let mut poison = Poison::new(EntityBits::from_bits(1), NANOS_PER_SEC, 10 * NANOS_PER_SEC);
    let mut health = Health::new(50);
    assert!(!poison.step(NANOS_PER_SEC, &mut health, None));
    assert_eq!(health.0.current, 50);
}

#[test]
fn poison_damage_uses_whole_seconds() {
    let poison = Poison::new(EntityBits::from_bits(1), 1_999_999_999, NANOS_PER_SEC);
    assert_eq!(poison.tick_damage(Some(100)), 5);
    let short = Poison::new(EntityBits::from_bits(1), 500_000_000, NANOS_PER_SEC);
    assert_eq!(short.tick_damage(Some(100)), 0);
    assert_eq!(poison.tick_damage(Some(19)), 0);
}

#[test]
fn poison_damage_does_not_go_below_zero() {
    let mut poison = Poison::new(EntityBits::from_bits(1), NANOS_PER_SEC, 10 * NANOS_PER_SEC);
    let mut health = Health::new(100);
    health.0.current = 3;
    assert!(!poison.step(NANOS_PER_SEC, &mut health, Some(200)));
    assert_eq!(health.0.current, 0);
}

#[test]
fn stackable_effect_expires() {
    let mut e = StackableStatusEffect::new(3, 5 * NANOS_PER_SEC);
    assert_eq!(e.stacks(), 3);
    assert!(!e.tick(4 * NANOS_PER_SEC));
    assert!(e.tick(NANOS_PER_SEC));
    assert_eq!(e.stacks(), 3);
    assert!(e.timer().is_finished());
}

#[test]
fn buff_round_trip_restores_stat() {
    let up = DefenseUp(StackableStatusEffect::new(5, NANOS_PER_SEC));
    let mut d = Defense(-3);
    d.on_add(up.0.stacks(), false);
    assert_eq!(d.0, 2);
    d.on_remove(up.0.stacks(), false);
    assert_eq!(d.0, -3);
}

#[test]
fn debuff_round_trip_restores_stat_unless_saturated() {
    let down = AgilityDown(StackableStatusEffect::new(40, NANOS_PER_SEC));
    let mut a = Agility(10);
    a.on_add(down.0.stacks(), true);
    assert_eq!(a.0, -30);
    a.on_remove(down.0.stacks(), true);
    assert_eq!(a.0, 10);
    let mut low = Agility(i16::MIN + 5);
    low.on_add(40, true);
    assert_eq!(low.0, i16::MIN);
    low.on_remove(40, true);
    assert_eq!(low.0, i16::MIN + 40);
}

#[test]
fn dps_debuff_stops_at_zero() {
    let mut d = Dps(10);
    d.on_add(25, true);
    assert_eq!(d.0, 0);
    d.on_remove(25, true);
    assert_eq!(d.0, 25);
    let mut e = Dps(10);
    e.on_add(25, false);
    assert_eq!(e.0, 35);
    e.on_remove(25, false);
    assert_eq!(e.0, 10);
}

#[test]
fn poison_too_strong_for_a_tick_does_nothing_between_ticks() {
    // A tick of this poison would deal more than a u16 holds; between ticks, and once the poison
    // has run out, it deals nothing and does not fail.
    let mut poison = Poison::new(EntityBits::from_bits(1), 100 * NANOS_PER_SEC, 150 * NANOS_PER_SEC);
    let mut health = Health::new(500);
    assert!(!poison.step(NANOS_PER_SEC, &mut health, Some(u16::MAX)));
    assert_eq!(health.0.current, 500);
    assert!(poison.step(200 * NANOS_PER_SEC, &mut health, Some(u16::MAX)));
    assert_eq!(health.0.current, 500);
}
