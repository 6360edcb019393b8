//! Input actions a player can perform.
use vstd::prelude::*;

verus! {

/// Walk in a direction.
#[derive(Clone, Copy, Debug)]
pub struct Walk;

/// Jump.
#[derive(Clone, Copy, Debug)]
pub struct Jump;

/// Turn the view.
#[derive(Clone, Copy, Debug)]
pub struct Look;

/// Cast the ability in slot `N` (counted from one).
#[derive(Clone, Copy, Debug)]
pub struct Ability<const N: usize>;

/// The number of ability slots.
pub const N_ABILITIES: usize = 5;

/// Attack with the held weapon.
#[derive(Clone, Copy, Debug)]
pub struct Attack;

} // verus!
