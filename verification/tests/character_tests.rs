use raid_race_lib::character::{AbilityId, Character, CharacterData, CharacterName, Cooldown, Cooldowns, ABILITY_COOLDOWN, STRIKE_COOLDOWN};
use raid_race_lib::timer::TimerMode;

const ALL: [AbilityId; 8] = [
    AbilityId::Strike,
    AbilityId::StrikeCombo,
    AbilityId::Spin,
    AbilityId::Meditate,
    AbilityId::Kick,
    AbilityId::Leap,
    AbilityId::Trance,
    AbilityId::Crimp,
];

#[test]
fn ability_keys_round_trip() {
    for a in ALL {
        assert_eq!(AbilityId::from_key(a.key()), Some(a));
    }
    assert_eq!(AbilityId::from_key("strike_combo"), Some(AbilityId::StrikeCombo));
    assert_eq!(AbilityId::from_key("Strike"), None);
    assert_eq!(AbilityId::from_key(""), None);
    assert_eq!(AbilityId::from_key("strike "), None);
    assert_eq!(AbilityId::from_key("battle_trance"), None);
}

#[test]
fn ability_names() {
    assert_eq!(AbilityId::StrikeCombo.name(), "Strike Combo");
    assert_eq!(AbilityId::Trance.name(), "Battle Trance");
    assert_eq!(AbilityId::Crimp.name(), "Crimp");
    assert_eq!(AbilityId::Leap.description(), "Leap into the air.");
    for a in ALL {
        assert_eq!(a.cost(), 0);
    }
}

#[test]
fn initial_cooldowns() {
    match AbilityId::StrikeCombo.cooldown() {
        Cooldown::Ready(false) => {}
        _ => panic!("strike combo is gated by a cleared flag"),
    }
    match AbilityId::Strike.cooldown() {
        Cooldown::Timer(t) => {
            assert_eq!(t.duration(), STRIKE_COOLDOWN);
            assert_eq!(t.elapsed(), STRIKE_COOLDOWN);
            assert!(t.is_finished());
            assert_eq!(t.mode(), TimerMode::Once);
        }
        _ => panic!("strike has a timer"),
    }
    match AbilityId::Kick.cooldown() {
        Cooldown::Timer(t) => assert_eq!(t.duration(), ABILITY_COOLDOWN),
        _ => panic!("kick has a timer"),
    }
}

#[test]
fn warrior_starts_fresh() {
    let (c, abilities) = Character::warrior(25);
    assert_eq!(abilities, [AbilityId::Strike, AbilityId::Leap, AbilityId::Spin, AbilityId::Meditate, AbilityId::Kick]);
    assert!(c.channel.is_none());
    let CharacterData::Warrior { abilities: a, strike_bonus_percent, combo_window, combo_index, strike, combo, spin, meditate, trance } = c.data;
    assert_eq!(a, abilities);
    assert_eq!(strike_bonus_percent, 25);
    assert!(combo_window.is_none());
    assert_eq!(combo_index, Some(2));
    assert!(!strike);
    assert_eq!(combo, 0);
    assert!(spin.is_none() && meditate.is_none() && trance.is_none());
    assert_eq!(c.data.ability(1), AbilityId::Strike);
    assert_eq!(c.data.ability(5), AbilityId::Kick);
    assert_eq!(c.data.character_name(), CharacterName::Warrior);
    assert_eq!(c.data.name(), "Warrior");
}

#[test]
fn cast_fires_once_until_cooled_down() {
    let (_, abilities) = Character::warrior(10);
    let mut cds = Cooldowns::from(&abilities);
    assert!(cds.try_activate(0));
    assert!(!cds.try_activate(0));
    cds.tick(STRIKE_COOLDOWN - 1);
    assert!(!cds.try_activate(0));
    cds.tick(1);
    assert!(cds.try_activate(0));
    // Leap, in slot two, is untouched by Strike's casts and ticks.
    assert!(cds.try_activate(1));
}

#[test]
fn flag_gated_ability_needs_its_flag() {
    let abilities = [AbilityId::Strike, AbilityId::StrikeCombo, AbilityId::Strike, AbilityId::Strike, AbilityId::Strike];
    let mut cds = Cooldowns::from(&abilities);
    assert!(!cds.try_activate(1));
    cds.set_ready(1, true);
    assert!(cds.try_activate(1));
    assert!(!cds.try_activate(1));
    // Setting the flag of a timer slot changes nothing.
    cds.set_ready(0, false);
    assert!(cds.try_activate(0));
}
