//! Stats of living entities: identifiers, health and mana meters and combat attributes.
use vstd::prelude::*;

verus! {

/// Unique identifier for living entities.
#[derive(Clone, Copy, Debug, PartialEq, Eq, Structural)]
pub struct Id(pub u64);

/// A bounded resource: a current amount next to its cap.
///
/// The current amount is normally at most the cap; healing keeps it there. Writing the fields
/// directly can break that on purpose (overheal, true damage).
#[derive(Clone, Copy, Debug, Default, PartialEq, Eq, Structural)]
pub struct Meter {
    pub cap: u16,
    pub current: u16,
}

/// The amount after healing `amount` into a meter: capped at the meter's cap.
pub open spec fn healed(m: Meter, amount: u16) -> u16 {
    if m.cap <= m.current + amount {
        m.cap
    } else {
        (m.current + amount) as u16
    }
}

/// The amount after draining `amount` from a meter: never below zero.
pub open spec fn drained(m: Meter, amount: u16) -> u16 {
    if m.current <= amount {
        0
    } else {
        (m.current - amount) as u16
    }
}

/// The current amount is within the cap.
pub open spec fn within_cap(m: Meter) -> bool {
    m.current <= m.cap
}

impl Meter {
    /// A full meter with the given cap.
    pub fn new(cap: u16) -> (m: Meter)
        ensures
            m.cap == cap,
            m.current == cap,
    {
        Meter { cap, current: cap }
    }

    /// Adds `amount`, stopping at the cap. The sum of the current amount and `amount` must fit
    /// in a `u16`.
    pub fn heal(&mut self, amount: u16)
        requires
            old(self).current + amount <= u16::MAX,
        ensures
            final(self).cap == old(self).cap,
            final(self).current == healed(*old(self), amount),
    {
        let sum = self.current + amount;
        self.current = if self.cap < sum {
            self.cap
        } else {
            sum
        };
    }

    /// Removes `amount`, stopping at zero.
    pub fn drain(&mut self, amount: u16)
        ensures
            final(self).cap == old(self).cap,
            final(self).current == drained(*old(self), amount),
    {
        self.current = self.current.saturating_sub(amount);
    }

    /// Fills the meter to its cap.
    pub fn fill(&mut self)
        ensures
            final(self).cap == old(self).cap,
            final(self).current == old(self).cap,
    {
        self.current = self.cap;
    }
}

/// Health of a living entity.
///
/// Healing goes through [`Health::add_assign`], which prevents overheal; damage through
/// [`Health::apply_damage`], which never goes below zero.
#[derive(Clone, Copy, Debug, Default, PartialEq, Eq, Structural)]
pub struct Health(pub Meter);

impl Health {
    /// Full health with the given cap.
    pub fn new(cap: u16) -> (h: Health)
        ensures
            h.0.cap == cap,
            h.0.current == cap,
    {
        Health(Meter::new(cap))
    }

    /// Heals by `rhs` without exceeding the cap.
    pub fn add_assign(&mut self, rhs: u16)
        requires
            old(self).0.current + rhs <= u16::MAX,
        ensures
            final(self).0.cap == old(self).0.cap,
            final(self).0.current == healed(old(self).0, rhs),
    {
        self.0.heal(rhs);
    }

    /// Takes `amount` of damage (already reduced by defense), never going below zero.
    pub fn apply_damage(&mut self, amount: u16)
        ensures
            final(self).0.cap == old(self).0.cap,
            final(self).0.current == drained(old(self).0, amount),
    {
        self.0.drain(amount);
    }
}

/// Mana of a living entity.
#[derive(Clone, Copy, Debug, Default, PartialEq, Eq, Structural)]
pub struct Mana(pub Meter);

impl Mana {
    /// Full mana with the given cap.
    pub fn new(cap: u16) -> (m: Mana)
        ensures
            m.0.cap == cap,
            m.0.current == cap,
    {
        Mana(Meter::new(cap))
    }

    /// Restores `rhs` mana without exceeding the cap.
    pub fn add_assign(&mut self, rhs: u16)
        requires
            old(self).0.current + rhs <= u16::MAX,
        ensures
            final(self).0.cap == old(self).0.cap,
            final(self).0.current == healed(old(self).0, rhs),
    {
        self.0.heal(rhs);
    }
}

/// Damage per second.
#[derive(Clone, Copy, Debug, PartialEq, Eq, Structural)]
pub struct Dps(pub u16);

/// Increases movement speed and attack rate.
#[derive(Clone, Copy, Debug, PartialEq, Eq, Structural)]
pub struct Agility(pub i16);

/// Cooldown reduction.
#[derive(Clone, Copy, Debug, PartialEq, Eq, Structural)]
pub struct Cdr(pub u16);

/// Reduces incoming damage by a tenth per point.
#[derive(Clone, Copy, Debug, PartialEq, Eq, Structural)]
pub struct Defense(pub i16);

/// A percent between 0 and 100.
#[derive(Clone, Copy, Debug, PartialEq, Eq, Structural)]
pub struct Luck(pub u8);

/// Healing never raises a meter above its cap, and draining never lowers it below zero or
/// raises it: both keep a meter that was within its cap within it, and leave the cap alone.
pub proof fn lemma_meter_stays_within_cap(m: Meter, amount: u16)
    requires
        within_cap(m),
    ensures
        healed(m, amount) <= m.cap,
        drained(m, amount) <= m.current,
        within_cap(Meter { current: healed(m, amount), ..m }),
        within_cap(Meter { current: drained(m, amount), ..m }),
{
}

/// Healing an amount into a meter that has at least that much room adds exactly that amount;
/// draining it again returns the meter to where it was.
pub proof fn lemma_heal_then_drain(m: Meter, amount: u16)
    requires
        m.current + amount <= m.cap,
    ensures
        healed(m, amount) == m.current + amount,
        drained(Meter { current: healed(m, amount), ..m }, amount) == m.current,
{
}

} // verus!
