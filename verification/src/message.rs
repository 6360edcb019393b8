//! Messages between client and server: movement buttons and entity handles.
use vstd::prelude::*;

verus! {

/// Bit of the forward button.
pub const FORWARD_BIT: u8 = 1;

/// Bit of the right button.
pub const RIGHT_BIT: u8 = 2;

/// Bit of the backward button.
pub const BACKWARD_BIT: u8 = 4;

/// Bit of the left button.
pub const LEFT_BIT: u8 = 8;

/// Bit of the jump button.
pub const JUMP_BIT: u8 = 16;

/// All defined button bits.
pub const ALL_BITS: u8 = 31;

/// The set of movement buttons held down, one bit each.
#[derive(Clone, Copy, Debug, Default, PartialEq, Eq, Structural)]
pub struct Buttons(u8);

impl View for Buttons {
    type V = u8;

    closed spec fn view(&self) -> u8 {
        self.0
    }
}

/// Whether every bit of `other` is set in `bits`.
pub open spec fn contains_bits(bits: u8, other: u8) -> bool {
    bits & other == other
}

impl Buttons {
    /// The forward button.
    pub fn forward() -> (b: Buttons)
        ensures
            b@ == FORWARD_BIT,
    {
        Buttons(FORWARD_BIT)
    }

    /// The right button.
    pub fn right() -> (b: Buttons)
        ensures
            b@ == RIGHT_BIT,
    {
        Buttons(RIGHT_BIT)
    }

    /// The backward button.
    pub fn backward() -> (b: Buttons)
        ensures
            b@ == BACKWARD_BIT,
    {
        Buttons(BACKWARD_BIT)
    }

    /// The left button.
    pub fn left() -> (b: Buttons)
        ensures
            b@ == LEFT_BIT,
    {
        Buttons(LEFT_BIT)
    }

    /// The jump button.
    pub fn jump() -> (b: Buttons)
        ensures
            b@ == JUMP_BIT,
    {
        Buttons(JUMP_BIT)
    }

    /// No button held.
    pub fn empty() -> (b: Buttons)
        ensures
            b@ == 0,
    {
        Buttons(0)
    }

    /// Every button held.
    pub fn all() -> (b: Buttons)
        ensures
            b@ == ALL_BITS,
    {
        Buttons(ALL_BITS)
    }

    /// The raw bits.
    pub fn bits(&self) -> (b: u8)
        ensures
            b == self@,
    {
        self.0
    }

    /// The buttons of `bits`, if it holds no undefined bit.
    pub fn from_bits(bits: u8) -> (b: Option<Buttons>)
        ensures
            b is Some <==> bits & !ALL_BITS == 0,
            b matches Some(v) ==> v@ == bits,
    {
        if bits & !ALL_BITS == 0 {
            Some(Buttons(bits))
        } else {
            None
        }
    }

    /// The buttons of `bits`, dropping undefined bits.
    pub fn from_bits_truncate(bits: u8) -> (b: Buttons)
        ensures
            b@ == bits & ALL_BITS,
    {
        Buttons(bits & ALL_BITS)
    }

    /// The buttons of `bits`, undefined bits kept.
    pub fn from_bits_retain(bits: u8) -> (b: Buttons)
        ensures
            b@ == bits,
    {
        Buttons(bits)
    }

    /// Whether no bit is set.
    pub fn is_empty(&self) -> (b: bool)
        ensures
            b == (self@ == 0),
    {
        self.0 == 0
    }

    /// Whether every defined button is held.
    pub fn is_all(&self) -> (b: bool)
        ensures
            b == (self@ & ALL_BITS == ALL_BITS),
    {
        self.0 & ALL_BITS == ALL_BITS
    }

    /// Whether every button of `other` is held.
    pub fn contains(&self, other: Buttons) -> (b: bool)
        ensures
            b == contains_bits(self@, other@),
    {
        self.0 & other.0 == other.0
    }

    /// Whether some button of `other` is held.
    pub fn intersects(&self, other: Buttons) -> (b: bool)
        ensures
            b == (self@ & other@ != 0),
    {
        self.0 & other.0 != 0
    }

    /// Holds the buttons of `other` too.
    pub fn insert(&mut self, other: Buttons)
        ensures
            final(self)@ == old(self)@ | other@,
    {
        self.0 = self.0 | other.0;
    }

    /// Releases the buttons of `other`.
    pub fn remove(&mut self, other: Buttons)
        ensures
            final(self)@ == old(self)@ & !other@,
    {
        self.0 = self.0 & !other.0;
    }

    /// Flips the buttons of `other`.
    pub fn toggle(&mut self, other: Buttons)
        ensures
            final(self)@ == old(self)@ ^ other@,
    {
        self.0 = self.0 ^ other.0;
    }

    /// Holds (if `value`) or releases the buttons of `other`.
    pub fn set(&mut self, other: Buttons, value: bool)
        ensures
            final(self)@ == if value {
                old(self)@ | other@
            } else {
                old(self)@ & !other@
            },
    {
        if value {
            self.insert(other);
        } else {
            self.remove(other);
        }
    }

    /// The buttons held in either.
    pub fn union(self, other: Buttons) -> (b: Buttons)
        ensures
            b@ == self@ | other@,
    {
        Buttons(self.0 | other.0)
    }

    /// The buttons held in both.
    pub fn intersection(self, other: Buttons) -> (b: Buttons)
        ensures
            b@ == self@ & other@,
    {
        Buttons(self.0 & other.0)
    }

    /// The buttons held in `self` but not in `other`.
    pub fn difference(self, other: Buttons) -> (b: Buttons)
        ensures
            b@ == self@ & !other@,
    {
        Buttons(self.0 & !other.0)
    }

    /// The defined buttons not held.
    pub fn complement(self) -> (b: Buttons)
        ensures
            b@ == !self@ & ALL_BITS,
    {
        Buttons(!self.0 & ALL_BITS)
    }
}

/// The direction a set of buttons asks to walk in, as (sideways, forward) steps: forward adds
/// one forward step and backward takes one away; left adds one sideways step and right takes
/// one away.
pub open spec fn walk_direction_spec(bits: u8) -> (int, int) {
    let x = (if contains_bits(bits, LEFT_BIT) { 1int } else { 0int }) - (if contains_bits(
        bits,
        RIGHT_BIT,
    ) {
        1int
    } else {
        0int
    });
    let z = (if contains_bits(bits, FORWARD_BIT) { 1int } else { 0int }) - (if contains_bits(
        bits,
        BACKWARD_BIT,
    ) {
        1int
    } else {
        0int
    });
    (x, z)
}

/// The walking direction requested by `input`, before it is rotated into the player's frame.
pub fn walk_direction(input: Buttons) -> (d: (i8, i8))
    ensures
        d.0 == walk_direction_spec(input@).0,
        d.1 == walk_direction_spec(input@).1,
{
    let mut x: i8 = 0;
    let mut z: i8 = 0;
    if input.contains(Buttons::forward()) {
        z = z + 1;
    }
    if input.contains(Buttons::backward()) {
        z = z - 1;
    }
    if input.contains(Buttons::left()) {
        x = x + 1;
    }
    if input.contains(Buttons::right()) {
        x = x - 1;
    }
    (x, z)
}

/// Pressing both buttons of an opposite pair cancels it: holding forward and backward walks
/// nowhere forward, holding left and right walks nowhere sideways.
pub proof fn lemma_opposite_buttons_cancel(bits: u8)
    ensures
        contains_bits(bits, FORWARD_BIT) && contains_bits(bits, BACKWARD_BIT) ==> walk_direction_spec(
            bits,
        ).1 == 0,
        contains_bits(bits, LEFT_BIT) && contains_bits(bits, RIGHT_BIT) ==> walk_direction_spec(
            bits,
        ).0 == 0,
{
}

/// The input a client sends each tick.
#[derive(Clone, Copy, Debug, Default)]
pub struct Input {
    pub buttons: Buttons,
}

/// A request for authentication.
#[derive(Clone, Copy, Debug)]
pub struct Auth;

/// Tells a client which entity it controls.
#[derive(Clone, Copy, Debug)]
pub struct You(pub EntityBits);

/// The bit representation of an entity, as sent over the network.
#[derive(Clone, Copy, Debug, PartialEq, Eq, Structural)]
pub struct EntityBits(u64);

impl View for EntityBits {
    type V = u64;

    closed spec fn view(&self) -> u64 {
        self.0
    }
}

impl EntityBits {
    /// The handle of the entity whose bit representation is `bits`.
    pub fn from_bits(bits: u64) -> (e: EntityBits)
        ensures
            e@ == bits,
    {
        EntityBits(bits)
    }

    /// The bit representation.
    pub fn to_bits(&self) -> (b: u64)
        ensures
            b == self@,
    {
        self.0
    }
}

/// Two handles with the same bits are the same handle, so converting bits to a handle and
/// back loses nothing.
pub proof fn lemma_entity_bits_injective(e: EntityBits, f: EntityBits)
    ensures
        e@ == f@ ==> e == f,
{
}

} // verus!
