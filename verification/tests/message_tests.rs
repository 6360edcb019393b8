use raid_race_lib::message::{walk_direction, Auth, Buttons, EntityBits, Input, You};

#[test]
fn buttons_bits() {
    assert_eq!(Buttons::forward().bits(), 1);
    assert_eq!(Buttons::right().bits(), 2);
    assert_eq!(Buttons::backward().bits(), 4);
    assert_eq!(Buttons::left().bits(), 8);
    assert_eq!(Buttons::jump().bits(), 16);
    assert_eq!(Buttons::all().bits(), 31);
    assert!(Buttons::empty().is_empty());
    assert!(Buttons::all().is_all());
    assert_eq!(Buttons::from_bits(32), None);
    assert_eq!(Buttons::from_bits(5).map(|b| b.bits()), Some(5));
    assert_eq!(Buttons::from_bits_truncate(0xff).bits(), 31);
    assert_eq!(Buttons::from_bits_retain(0xff).bits(), 0xff);
}

#[test]
fn buttons_set_operations() {
    let mut b = Buttons::empty();
    b.insert(Buttons::forward());
    b.insert(Buttons::jump());
    assert!(b.contains(Buttons::forward()));
    assert!(b.contains(Buttons::forward().union(Buttons::jump())));
    assert!(!b.contains(Buttons::left()));
    assert!(b.intersects(Buttons::jump().union(Buttons::left())));
    b.remove(Buttons::jump());
    assert_eq!(b.bits(), 1);
    b.toggle(Buttons::left());
    assert_eq!(b.bits(), 9);
    b.set(Buttons::left(), false);
    assert_eq!(b.bits(), 1);
    b.set(Buttons::right(), true);
    assert_eq!(b.bits(), 3);
    assert_eq!(b.intersection(Buttons::right()).bits(), 2);
    assert_eq!(b.difference(Buttons::right()).bits(), 1);
    assert_eq!(b.complement().bits(), 28);
    assert_eq!(Input::default().buttons, Buttons::empty());
}

#[test]
fn walk_direction_from_buttons() {
    assert_eq!(walk_direction(Buttons::empty()), (0, 0));
    assert_eq!(walk_direction(Buttons::forward()), (0, 1));
    assert_eq!(walk_direction(Buttons::backward()), (0, -1));
    assert_eq!(walk_direction(Buttons::left()), (1, 0));
    assert_eq!(walk_direction(Buttons::right()), (-1, 0));
    assert_eq!(walk_direction(Buttons::forward().union(Buttons::backward())), (0, 0));
    assert_eq!(walk_direction(Buttons::all()), (0, 0));
    assert_eq!(walk_direction(Buttons::forward().union(Buttons::right())), (-1, 1));
}

#[test]
fn entity_bits_round_trip() {
    let e = EntityBits::from_bits(0xdead_beef_0000_0001);
    assert_eq!(e.to_bits(), 0xdead_beef_0000_0001);
    assert_eq!(e, EntityBits::from_bits(0xdead_beef_0000_0001));
    let you = You(e);
    assert_eq!(you.0, e);
    let _auth = Auth;
}
