use raid_race_lib::alive::Health;
use raid_race_lib::character::{AbilityId, CharacterData, CharacterName, Cooldown};
use raid_race_lib::console::{character_command, health_command, parse_health_input, slot_command, HealthInput, NoCD, SlotOutcome, Slotted, CONSOLE_STRIKE_BONUS_PERCENT};
use raid_race_lib::message::EntityBits;
use raid_race_lib::weapon::{HeldWeapon, Weapon};

#[test]
fn health_input_parses_max_and_numbers() {
    assert_eq!(parse_health_input("max"), Some(HealthInput::Max));
    assert_eq!(parse_health_input("42"), Some(HealthInput::Amount(42)));
    assert_eq!(parse_health_input("+7"), Some(HealthInput::Amount(7)));
    assert_eq!(parse_health_input("007"), Some(HealthInput::Amount(7)));
    assert_eq!(parse_health_input("65535"), Some(HealthInput::Amount(65535)));
    assert_eq!(parse_health_input("65536"), None);
    assert_eq!(parse_health_input("-1"), None);
    assert_eq!(parse_health_input(""), None);
    assert_eq!(parse_health_input("+"), None);
    assert_eq!(parse_health_input("Max"), None);
    assert_eq!(parse_health_input(" 5"), None);
}

#[test]
fn health_command_sets_or_reports() {
    let mut h = Health::new(100);
    assert_eq!(health_command(&mut h, Some(HealthInput::Amount(30))), None);
    assert_eq!(h.0.current, 30);
    assert_eq!(health_command(&mut h, None), Some(30));
    assert_eq!(h.0.current, 30);
    assert_eq!(health_command(&mut h, Some(HealthInput::Max)), None);
    assert_eq!(h.0.current, 100);
    health_command(&mut h, Some(HealthInput::Amount(500)));
    assert_eq!(h.0.current, 500);
}

fn warrior() -> CharacterData {
    character_command(CharacterName::Warrior).0.data
}

#[test]
fn slot_command_slots_abilities() {
    let mut d = warrior();
    assert_eq!(slot_command(&mut d, 3, "kick"), SlotOutcome::Slotted);
    assert_eq!(d.ability(3), AbilityId::Kick);
    let CharacterData::Warrior { combo_index, .. } = d;
    assert_eq!(combo_index, Some(2));
    assert_eq!(slot_command(&mut d, 5, "strike_combo"), SlotOutcome::Slotted);
    assert_eq!(d.ability(5), AbilityId::StrikeCombo);
    let CharacterData::Warrior { combo_index, .. } = d;
    assert_eq!(combo_index, Some(5));
}

#[test]
fn slot_command_rejects_bad_input() {
    let mut d = warrior();
    let before = d.ability(1);
    let out = slot_command(&mut d, 6, "kick");
    assert_eq!(out, SlotOutcome::InvalidSlot);
    assert!(!out.announces());
    let out = slot_command(&mut d, 1, "fireball");
    assert_eq!(out, SlotOutcome::InvalidAbility);
    assert!(out.announces());
    assert_eq!(d.ability(1), before);
    assert!(SlotOutcome::Slotted.announces());
}

#[test]
fn character_command_makes_a_warrior() {
    let (c, cds) = character_command(CharacterName::Warrior);
    let CharacterData::Warrior { strike_bonus_percent, .. } = c.data;
    assert_eq!(strike_bonus_percent, CONSOLE_STRIKE_BONUS_PERCENT);
    for i in 0..5 {
        match cds.get(i) {
            Cooldown::Timer(t) => assert!(t.is_finished()),
            Cooldown::Ready(_) => panic!("the starting abilities all have timers"),
        }
    }
    assert_eq!(CharacterName::from_key("warrior"), Some(CharacterName::Warrior));
    assert_eq!(CharacterName::from_key("Warrior"), None);
}

#[test]
fn weapons_and_flags() {
    assert_eq!(Weapon::from_key("placeholder"), Some(Weapon::PlaceholderGun));
    assert_eq!(Weapon::from_key("gun"), None);
    assert_eq!(HeldWeapon(Weapon::PlaceholderGun).0, Weapon::PlaceholderGun);
    assert_eq!(NoCD::default(), NoCD(false));
    let s = Slotted { entity: EntityBits::from_bits(9), index: 2 };
    assert_eq!(s.entity.to_bits(), 9);
    assert_eq!(s.index, 2);
}
