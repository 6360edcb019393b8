//! Weapons.
use crate::text::str_eq;
use vstd::prelude::*;

verus! {

/// The weapons a player can hold.
#[derive(Clone, Copy, Debug, PartialEq, Eq, Structural)]
pub enum Weapon {
    PlaceholderGun,
}

/// The weapon a player holds.
#[derive(Clone, Copy, Debug, PartialEq, Eq, Structural)]
pub struct HeldWeapon(pub Weapon);

impl Weapon {
    /// The weapon chosen by `s` at the console, if any.
    pub fn from_key(s: &str) -> (w: Option<Weapon>)
        ensures
            w == (if s@ == seq!['p', 'l', 'a', 'c', 'e', 'h', 'o', 'l', 'd', 'e', 'r'] {
                Some(Weapon::PlaceholderGun)
            } else {
                None
            }),
    {
        let key = "placeholder";
        proof {
            reveal_strlit("placeholder");
            assert(key@ =~= seq!['p', 'l', 'a', 'c', 'e', 'h', 'o', 'l', 'd', 'e', 'r']);
        }
        if str_eq(s, key) {
            Some(Weapon::PlaceholderGun)
        } else {
            None
        }
    }
}

/// Marks a player that shoots the placeholder gun.
#[derive(Clone, Copy, Debug)]
pub struct PlaceholderGun;

} // verus!
