use raid_race_lib::alive::{Health, Mana, Meter};

#[test]
fn new_meters_are_full() {
    let h = Health::new(100);
    assert_eq!(h.0.cap, 100);
    assert_eq!(h.0.current, 100);
    let m = Mana::new(40);
    assert_eq!(m.0, Meter { cap: 40, current: 40 });
    assert_eq!(Meter::new(7), Meter { cap: 7, current: 7 });
}

#[test]
fn healing_stops_at_cap() {
    let mut h = Health::new(100);
    h.0.current = 90;
    h.add_assign(30);
    assert_eq!(h.0.current, 100);
    h.0.current = 50;
    h.add_assign(10);
    assert_eq!(h.0.current, 60);
    let mut m = Mana::new(40);
    m.0.current = 0;
    m.add_assign(41);
    assert_eq!(m.0.current, 40);
}

#[test]
fn healing_an_overhealed_meter_brings_it_down_to_cap() {
    let mut h = Health::new(100);
    h.0.current = 150;
    h.add_assign(0);
    assert_eq!(h.0.current, 100);
}

#[test]
fn damage_stops_at_zero() {
    let mut h = Health::new(100);
    h.apply_damage(30);
    assert_eq!(h.0.current, 70);
    h.apply_damage(200);
    assert_eq!(h.0.current, 0);
    assert_eq!(h.0.cap, 100);
}

#[test]
fn heal_then_drain_round_trip() {
    let mut m = Meter { cap: 100, current: 40 };
    m.heal(25);
    assert_eq!(m.current, 65);
    m.drain(25);
    assert_eq!(m.current, 40);
    m.fill();
    assert_eq!(m.current, 100);
}
