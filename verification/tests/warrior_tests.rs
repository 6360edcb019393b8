use raid_race_lib::alive::{Defense, Health};
use raid_race_lib::character::{AbilityId, Character, CharacterData, Cooldown, Cooldowns};
use raid_race_lib::timer::{Timer, TimerMode, NANOS_PER_SEC};
use raid_race_lib::warrior::{cast_meditate, cast_spin, cast_strike, cast_strike_combo, cast_trance, crimp_debuff, kick_debuff, on_hit, spin_pulse_damage, tick_combo_window, tick_meditate, tick_spin, tick_trance, COMBO_WINDOW, CRIMP_DEBUFF_DURATION, KICK_AGILITY_DOWN_STACKS, KICK_DEBUFF_DURATION, MEDITATE_PERIOD, SPIN_PERIOD, SPIN_PULSES, TRANCE_DURATION};
use std::time::Duration;

fn warrior_with(abilities: [AbilityId; 5], combo_index: Option<usize>) -> (Character, Cooldowns) {
    let (mut c, _) = Character::warrior(10);
    if let CharacterData::Warrior { abilities: a, combo_index: ci, .. } = &mut c.data {
        *a = abilities;
        *ci = combo_index;
    }
    let cds = Cooldowns::from(&abilities);
    (c, cds)
}

fn fields(d: &CharacterData) -> (Option<Timer>, Option<usize>, bool, u8, Option<(usize, Timer)>, Option<Timer>, Option<Timer>) {
    let CharacterData::Warrior { combo_window, combo_index, strike, combo, spin, meditate, trance, .. } = *d;
    (combo_window, combo_index, strike, combo, spin, meditate, trance)
}

fn ready(c: &Cooldowns, i: usize) -> bool {
    match c.get(i) {
        Cooldown::Ready(b) => b,
        Cooldown::Timer(t) => t.is_finished(),
    }
}

#[test]
fn strike_then_combo_then_hits() {
    let abilities = [AbilityId::Strike, AbilityId::StrikeCombo, AbilityId::Spin, AbilityId::Meditate, AbilityId::Kick];
    // The combo index is counted from one by Strike: slot two holds the combo.
    let (mut c, mut cds) = warrior_with(abilities, Some(2));
    let mut attack = Timer::new(NANOS_PER_SEC, TimerMode::Once);
    cast_strike(&mut c.data, &mut attack, &mut cds);
    assert!(attack.is_finished());
    let (window, _, strike, combo, ..) = fields(&c.data);
    assert!(strike);
    assert_eq!(combo, 0);
    assert_eq!(window.unwrap().duration(), COMBO_WINDOW);
    assert!(ready(&cds, 1));

    let hit = on_hit(&mut c.data);
    assert!(hit.bonus && !hit.attack_again);
    assert!(!fields(&c.data).2);

    attack.reset();
    assert!(cast_strike_combo(&mut c.data, &mut attack));
    assert!(attack.is_finished());
    let (window, _, _, combo, ..) = fields(&c.data);
    assert!(window.is_none());
    assert_eq!(combo, 2);
    // The cast is the first attack; its hit attacks once more, and the second hit ends the combo.
    let first = on_hit(&mut c.data);
    assert!(first.bonus && first.attack_again);
    let second = on_hit(&mut c.data);
    assert!(second.bonus && !second.attack_again);
    assert_eq!(fields(&c.data).3, 0);
    let third = on_hit(&mut c.data);
    assert!(!third.bonus && !third.attack_again);
    // Without a window, the combo does nothing.
    assert!(!cast_strike_combo(&mut c.data, &mut attack));
}

#[test]
fn combo_window_closes_and_clears_flag() {
    let abilities = [AbilityId::Strike, AbilityId::StrikeCombo, AbilityId::Spin, AbilityId::Meditate, AbilityId::Kick];
    let (mut c, mut cds) = warrior_with(abilities, Some(2));
    let mut attack = Timer::new(NANOS_PER_SEC, TimerMode::Once);
    cast_strike(&mut c.data, &mut attack, &mut cds);
    assert!(ready(&cds, 1));
    tick_combo_window(&mut c.data, &mut cds, COMBO_WINDOW - 1);
    assert!(ready(&cds, 1));
    tick_combo_window(&mut c.data, &mut cds, 1);
    assert!(!ready(&cds, 1));
    assert!(!cast_strike_combo(&mut c.data, &mut attack));
}

#[test]
fn slotted_combo_is_readied_by_strike() {
    // Strike Combo slotted into slot two by the slot command: a Strike makes exactly that slot
    // ready, and Strike Combo can then be cast.
    let (mut c, _) = Character::warrior(10);
    assert_eq!(
        raid_race_lib::console::slot_command(&mut c.data, 2, "strike_combo"),
        raid_race_lib::console::SlotOutcome::Slotted
    );
    assert_eq!(fields(&c.data).1, Some(2));
    let CharacterData::Warrior { abilities, .. } = c.data;
    assert_eq!(abilities[1], AbilityId::StrikeCombo);
    let mut cds = Cooldowns::from(&abilities);
    assert!(!ready(&cds, 1));
    let mut attack = Timer::new(NANOS_PER_SEC, TimerMode::Once);
    cast_strike(&mut c.data, &mut attack, &mut cds);
    assert!(ready(&cds, 1));
    attack.reset();
    assert!(cast_strike_combo(&mut c.data, &mut attack));
}

#[test]
fn spin_pulses_five_times() {
    let (mut c, _) = Character::warrior(10);
    cast_spin(&mut c.data);
    let mut pulses = 0;
    assert!(tick_spin(&mut c.data, 1));
    pulses += 1;
    for _ in 0..20 {
        if tick_spin(&mut c.data, SPIN_PERIOD) {
            pulses += 1;
        }
    }
    assert_eq!(pulses, SPIN_PULSES);
    assert!(fields(&c.data).4.is_none());
}

#[test]
fn meditate_heals_five_times_and_ends() {
    let (mut c, _) = Character::warrior(10);
    cast_meditate(&mut c);
    let mut health = Health::new(1000);
    health.0.current = 100;
    // Half-second ticks: one heal each, five in all, and the meditation ends with its channel.
    for k in 1..=5u16 {
        assert!(fields(&c.data).5.is_some());
        tick_meditate(&mut c, &mut health, MEDITATE_PERIOD);
        assert_eq!(health.0.current, 100 + 20 * k);
    }
    assert!(fields(&c.data).5.is_none());
    assert!(c.channel.unwrap().is_finished());
    tick_meditate(&mut c, &mut health, MEDITATE_PERIOD);
    assert_eq!(health.0.current, 200);
}

#[test]
fn meditate_heals_only_on_whole_periods() {
    let (mut c, _) = Character::warrior(10);
    cast_meditate(&mut c);
    let mut health = Health::new(200);
    health.0.current = 100;
    tick_meditate(&mut c, &mut health, MEDITATE_PERIOD);
    assert_eq!(health.0.current, 104);
    tick_meditate(&mut c, &mut health, 1);
    assert_eq!(health.0.current, 104);
    // At the fixed tick rate the channel lasts 320 ticks and heals on every 64th.
    let mut heals = 1;
    let mut ticks = 0;
    while fields(&c.data).5.is_some() {
        let before = health.0.current;
        tick_meditate(&mut c, &mut health, raid_race_lib::config::TICK_PERIOD as u128);
        if health.0.current > before {
            heals += 1;
        }
        ticks += 1;
        assert!(ticks < 1000);
    }
    assert!(heals <= 5);
    assert_eq!(health.0.current, 100 + 4 * heals);
}

#[test]
fn meditate_ends_after_one_long_tick() {
    let (mut c, _) = Character::warrior(10);
    cast_meditate(&mut c);
    let mut health = Health::new(200);
    health.0.current = 100;
    tick_meditate(&mut c, &mut health, 10 * NANOS_PER_SEC);
    assert_eq!(health.0.current, 104);
    assert!(fields(&c.data).5.is_none());
}

#[test]
fn trance_shortens_and_restores_attack_cooldown() {
    let (mut c, _) = Character::warrior(10);
    let mut attack = Timer::new(NANOS_PER_SEC, TimerMode::Once);
    assert_eq!(cast_trance(&mut c.data, &mut attack, 10), Some(12));
    assert_eq!(attack.duration(), 750_000_000);
    let mut health = Health::new(100);
    health.0.current = 2;
    tick_trance(&mut c.data, &mut health, &mut attack, NANOS_PER_SEC);
    assert_eq!(health.0.current, 5);
    tick_trance(&mut c.data, &mut health, &mut attack, TRANCE_DURATION);
    assert_eq!(attack.duration(), NANOS_PER_SEC);
    assert!(fields(&c.data).6.is_none());
    assert_eq!(cast_trance(&mut c.data, &mut attack, 0), None);
    assert_eq!(cast_trance(&mut c.data, &mut attack, 1000), Some(255));
}

#[test]
fn trance_end_lengthens_long_cooldown() {
    // Cooldowns longer than 2^64 nanoseconds are lengthened by a third like any other.
    let (mut c, _) = Character::warrior(10);
    let d = raid_race_lib::timer::MAX_NANOS / 2;
    let mut attack = Timer::new(d, TimerMode::Once);
    cast_trance(&mut c.data, &mut attack, 10);
    assert_eq!(attack.duration(), d - d / 4);
    let mut health = Health::new(100);
    tick_trance(&mut c.data, &mut health, &mut attack, TRANCE_DURATION);
    let shortened = d - d / 4;
    assert_eq!(attack.duration(), shortened + shortened / 3);
    assert!(fields(&c.data).6.is_none());
}

#[test]
fn trance_does_not_always_restore() {
    let (mut c, _) = Character::warrior(10);
    let mut attack = Timer::new(3, TimerMode::Once);
    cast_trance(&mut c.data, &mut attack, 10);
    let mut health = Health::new(100);
    tick_trance(&mut c.data, &mut health, &mut attack, TRANCE_DURATION);
    assert_eq!(attack.duration(), 4);
}

#[test]
fn kick_and_crimp_debuffs() {
    let k = kick_debuff();
    assert_eq!(k.0.stacks(), KICK_AGILITY_DOWN_STACKS);
    assert_eq!(k.0.timer().duration(), KICK_DEBUFF_DURATION);
    assert_eq!(crimp_debuff(Defense(100)).0.stacks(), 15);
    assert_eq!(crimp_debuff(Defense(-50)).0.stacks(), 1);
    assert_eq!(crimp_debuff(Defense(6)).0.stacks(), 1);
    assert_eq!(crimp_debuff(Defense(i16::MAX)).0.stacks(), 255);
    assert_eq!(crimp_debuff(Defense(1)).0.timer().duration(), CRIMP_DEBUFF_DURATION);
}

// The float formulas of the game, written as integers in the library, agree on every input.

#[test]
fn trance_stacks_match_float_formula() {
    for dps in 0..=u16::MAX {
        let float = (dps as f32 * 1.25) as u8;
        let (mut c, _) = Character::warrior(10);
        let mut attack = Timer::new(NANOS_PER_SEC, TimerMode::Once);
        let ours = cast_trance(&mut c.data, &mut attack, dps).unwrap_or(0);
        assert_eq!(ours, float, "dps {dps}");
    }
}

#[test]
fn trance_floor_matches_float_formula() {
    for cap in 0..=u16::MAX {
        let float = (cap as f32 * 0.05) as u16;
        let (mut c, _) = Character::warrior(10);
        let mut attack = Timer::new(NANOS_PER_SEC, TimerMode::Once);
        cast_trance(&mut c.data, &mut attack, 10);
        let mut health = Health::new(cap);
        health.0.current = 0;
        tick_trance(&mut c.data, &mut health, &mut attack, 1);
        assert_eq!(health.0.current, float, "cap {cap}");
    }
}

#[test]
fn meditate_heal_matches_float_formula() {
    for cap in 0..=u16::MAX {
        let float = (cap as f32 * (2u8 as f32 * 0.01)) as u16;
        let (mut c, _) = Character::warrior(10);
        cast_meditate(&mut c);
        let mut health = Health::new(cap);
        health.0.current = 0;
        tick_meditate(&mut c, &mut health, MEDITATE_PERIOD);
        assert_eq!(health.0.current, float, "cap {cap}");
    }
}

#[test]
fn spin_damage_matches_float_formula() {
    let period = Duration::from_secs(1) / 5;
    assert_eq!(period.as_nanos(), SPIN_PERIOD as u128);
    for dps in 0..=u16::MAX {
        let float = (dps as f32 * period.as_secs_f32() * 2.0) as u16;
        assert_eq!(spin_pulse_damage(dps), float, "dps {dps}");
    }
}

#[test]
fn crimp_stacks_match_float_formula() {
    for d in i16::MIN..=i16::MAX {
        let float = ((d as f32 * 0.15) as u8).max(1);
        assert_eq!(crimp_debuff(Defense(d)).0.stacks(), float, "defense {d}");
    }
}

#[test]
fn meditate_near_full_count_ticks_without_healing() {
    // Health so high that a heal would overflow: ticks that do not heal are fine.
    let (mut c, _) = Character::warrior(10);
    cast_meditate(&mut c);
    let mut health = Health::new(u16::MAX);
    tick_meditate(&mut c, &mut health, MEDITATE_PERIOD - 1);
    assert_eq!(health.0.current, u16::MAX);
    assert!(fields(&c.data).5.is_some());
}
