//! Status effects: poison and stackable stat buffs and debuffs.
use crate::alive::{drained, Agility, Defense, Dps, Health};
use crate::message::EntityBits;
use crate::timer::{new_spec, tick_spec, Timer, TimerMode, TimerModel, MAX_NANOS, NANOS_PER_SEC};
use vstd::prelude::*;

verus! {

/// Seconds between two poison ticks before cooldown reduction.
pub const BASE_POISON_PERIOD_SECS: u64 = 2;

/// A poison deals this fraction (one over the divisor) of its source's DPS per second of period.
pub const BASE_POISON_DPS_DIVISOR: u16 = 20;

/// Damage over time caused by another entity.
pub struct Poison {
    pub source: EntityBits,
    pub tick: Timer,
    pub total: Timer,
}

/// Damage dealt by one poison tick: a twentieth of the source's DPS (rounded down) times the
/// whole seconds of the tick period (taken modulo 2^16), or nothing if the source has no DPS.
pub open spec fn poison_tick_damage(dps: Option<u16>, period: u128) -> int {
    match dps {
        None => 0,
        Some(d) => (d / BASE_POISON_DPS_DIVISOR) * ((period / NANOS_PER_SEC) % 0x1_0000),
    }
}

impl Poison {
    /// A poison from `source` that ticks every `tick_period` nanoseconds for `duration`
    /// nanoseconds.
    pub fn new(source: EntityBits, tick_period: u128, duration: u128) -> (p: Poison)
        requires
            tick_period <= MAX_NANOS,
            duration <= MAX_NANOS,
        ensures
            p.source == source,
            p.tick@ == new_spec(tick_period, TimerMode::Repeating),
            p.total@ == new_spec(duration, TimerMode::Once),
    {
        Poison {
            source,
            tick: Timer::new(tick_period, TimerMode::Repeating),
            total: Timer::new(duration, TimerMode::Once),
        }
    }

    /// Damage of one tick given the source's DPS, if the source has any.
    pub fn tick_damage(&self, source_dps: Option<u16>) -> (d: u16)
        requires
            poison_tick_damage(source_dps, self.tick@.duration) <= u16::MAX,
        ensures
            d == poison_tick_damage(source_dps, self.tick@.duration),
    {
        match source_dps {
            None => 0,
            Some(dps) => {
                let secs = ((self.tick.duration_secs()) % 0x1_0000) as u16;
                (dps / BASE_POISON_DPS_DIVISOR) * secs
            },
        }
    }

    /// Advances the poison by `delta` nanoseconds. Returns whether the poison ran out (and is
    /// to be removed); otherwise, if a tick completed, `health` takes the tick's damage, which
    /// must then fit in a `u16`.
    pub fn step(&mut self, delta: u128, health: &mut Health, source_dps: Option<u16>) -> (expired:
        bool)
        requires
            !tick_spec(old(self).total@, delta).finished && tick_spec(
                old(self).tick@,
                delta,
            ).times_finished_this_tick > 0 ==> poison_tick_damage(
                source_dps,
                old(self).tick@.duration,
            ) <= u16::MAX,
        ensures
            final(self).source == old(self).source,
            final(self).tick@ == tick_spec(old(self).tick@, delta),
            final(self).total@ == tick_spec(old(self).total@, delta),
            expired == final(self).total@.finished,
            final(health).0.cap == old(health).0.cap,
            final(health).0.current == if !expired && final(self).tick@.times_finished_this_tick
                > 0 {
                drained(
                    old(health).0,
                    poison_tick_damage(source_dps, old(self).tick@.duration) as u16,
                )
            } else {
                old(health).0.current
            },
    {
        self.tick.tick(delta);
        self.total.tick(delta);
        if self.total.is_finished() {
            true
        } else {
            if self.tick.just_finished() {
                let damage = self.tick_damage(source_dps);
                health.apply_damage(damage);
            }
            false
        }
    }
}

/// A timed effect with a number of stacks (at least one).
pub struct StackableStatusEffect {
    stacks: u8,
    timer: Timer,
}

impl StackableStatusEffect {
    #[verifier::type_invariant]
    spec fn has_stacks(self) -> bool {
        self.stacks > 0
    }

    /// The number of stacks.
    pub closed spec fn stack_count(self) -> u8 {
        self.stacks
    }

    /// The state of the effect's timer.
    pub closed spec fn timer_state(self) -> TimerModel {
        self.timer@
    }

    /// An effect of `stacks` stacks lasting `duration` nanoseconds.
    pub fn new(stacks: u8, duration: u128) -> (e: StackableStatusEffect)
        requires
            stacks > 0,
            duration <= MAX_NANOS,
        ensures
            e.stack_count() == stacks,
            e.timer_state() == new_spec(duration, TimerMode::Once),
    {
        StackableStatusEffect { stacks, timer: Timer::new(duration, TimerMode::Once) }
    }

    /// The number of stacks, which is never zero.
    pub fn stacks(&self) -> (s: u8)
        ensures
            s == self.stack_count(),
            s > 0,
    {
        proof {
            use_type_invariant(self);
        }
        self.stacks
    }

    /// The effect's timer.
    pub fn timer(&self) -> (t: Timer)
        ensures
            t@ == self.timer_state(),
    {
        self.timer
    }

    /// Advances the effect by `delta` nanoseconds; returns whether it ran out and is to be
    /// removed.
    pub fn tick(&mut self, delta: u128) -> (expired: bool)
        ensures
            final(self).stack_count() == old(self).stack_count(),
            final(self).timer_state() == tick_spec(old(self).timer_state(), delta),
            expired == final(self).timer_state().finished,
    {
        proof {
            use_type_invariant(&*self);
        }
        let mut timer = self.timer;
        timer.tick(delta);
        self.timer = timer;
        self.timer.is_finished()
    }
}

/// Raised defense.
pub struct DefenseUp(pub StackableStatusEffect);

/// Lowered defense.
pub struct DefenseDown(pub StackableStatusEffect);

/// Raised DPS.
pub struct DpsUp(pub StackableStatusEffect);

/// Lowered DPS.
pub struct DpsDown(pub StackableStatusEffect);

/// Raised agility.
pub struct AgilityUp(pub StackableStatusEffect);

/// Lowered agility.
pub struct AgilityDown(pub StackableStatusEffect);

/// Blindness for a duration.
pub struct Blind(pub Timer);

/// A signed stat lowered by `stacks`, stopping at the smallest value.
pub open spec fn lowered_i16(value: i16, stacks: u8) -> i16 {
    if value - stacks < i16::MIN {
        i16::MIN
    } else {
        (value - stacks) as i16
    }
}

/// An unsigned stat lowered by `stacks`, stopping at zero.
pub open spec fn lowered_u16(value: u16, stacks: u8) -> u16 {
    if value < stacks {
        0
    } else {
        (value - stacks) as u16
    }
}

/// A signed stat when an effect of `stacks` stacks starts: raised by a buff, lowered (stopping
/// at the smallest value) by a debuff.
pub open spec fn added_i16(value: i16, stacks: u8, debuff: bool) -> i16 {
    if debuff {
        lowered_i16(value, stacks)
    } else {
        (value + stacks) as i16
    }
}

/// A signed stat when an effect of `stacks` stacks ends: the buff's raise is taken back
/// (stopping at the smallest value), the debuff's lowering is given back.
pub open spec fn removed_i16(value: i16, stacks: u8, debuff: bool) -> i16 {
    if debuff {
        (value + stacks) as i16
    } else {
        lowered_i16(value, stacks)
    }
}

/// An unsigned stat when an effect of `stacks` stacks starts.
pub open spec fn added_u16(value: u16, stacks: u8, debuff: bool) -> u16 {
    if debuff {
        lowered_u16(value, stacks)
    } else {
        (value + stacks) as u16
    }
}

/// An unsigned stat when an effect of `stacks` stacks ends.
pub open spec fn removed_u16(value: u16, stacks: u8, debuff: bool) -> u16 {
    if debuff {
        (value + stacks) as u16
    } else {
        lowered_u16(value, stacks)
    }
}

/// Whether adding (for a buff) or giving back (for a debuff) `stacks` to a signed stat stays in
/// range, as the start of a buff and the end of a debuff require.
pub open spec fn raise_fits_i16(value: i16, stacks: u8) -> bool {
    value + stacks <= i16::MAX
}

fn raise_i16(value: i16, stacks: u8) -> (r: i16)
    requires
        raise_fits_i16(value, stacks),
    ensures
        r == value + stacks,
{
    value + stacks as i16
}

fn lower_i16(value: i16, stacks: u8) -> (r: i16)
    ensures
        r == lowered_i16(value, stacks),
{
    let r: i32 = value as i32 - stacks as i32;
    if r < i16::MIN as i32 {
        i16::MIN
    } else {
        r as i16
    }
}

fn lower_u16(value: u16, stacks: u8) -> (r: u16)
    ensures
        r == lowered_u16(value, stacks),
{
    value.saturating_sub(stacks as u16)
}

impl Defense {
    /// Applies the start of an effect of `stacks` stacks (a debuff if `debuff`).
    pub fn on_add(&mut self, stacks: u8, debuff: bool)
        requires
            !debuff ==> raise_fits_i16(old(self).0, stacks),
        ensures
            final(self).0 == added_i16(old(self).0, stacks, debuff),
    {
        self.0 = if debuff {
            lower_i16(self.0, stacks)
        } else {
            raise_i16(self.0, stacks)
        };
    }

    /// Applies the end of an effect of `stacks` stacks (a debuff if `debuff`).
    pub fn on_remove(&mut self, stacks: u8, debuff: bool)
        requires
            debuff ==> raise_fits_i16(old(self).0, stacks),
        ensures
            final(self).0 == removed_i16(old(self).0, stacks, debuff),
    {
        self.0 = if debuff {
            raise_i16(self.0, stacks)
        } else {
            lower_i16(self.0, stacks)
        };
    }
}

impl Agility {
    /// Applies the start of an effect of `stacks` stacks (a debuff if `debuff`).
    pub fn on_add(&mut self, stacks: u8, debuff: bool)
        requires
            !debuff ==> raise_fits_i16(old(self).0, stacks),
        ensures
            final(self).0 == added_i16(old(self).0, stacks, debuff),
    {
        self.0 = if debuff {
            lower_i16(self.0, stacks)
        } else {
            raise_i16(self.0, stacks)
        };
    }

    /// Applies the end of an effect of `stacks` stacks (a debuff if `debuff`).
    pub fn on_remove(&mut self, stacks: u8, debuff: bool)
        requires
            debuff ==> raise_fits_i16(old(self).0, stacks),
        ensures
            final(self).0 == removed_i16(old(self).0, stacks, debuff),
    {
        self.0 = if debuff {
            raise_i16(self.0, stacks)
        } else {
            lower_i16(self.0, stacks)
        };
    }
}

impl Dps {
    /// Applies the start of an effect of `stacks` stacks (a debuff if `debuff`).
    pub fn on_add(&mut self, stacks: u8, debuff: bool)
        requires
            !debuff ==> old(self).0 + stacks <= u16::MAX,
        ensures
            final(self).0 == added_u16(old(self).0, stacks, debuff),
    {
        self.0 = if debuff {
            lower_u16(self.0, stacks)
        } else {
            self.0 + stacks as u16
        };
    }

    /// Applies the end of an effect of `stacks` stacks (a debuff if `debuff`).
    pub fn on_remove(&mut self, stacks: u8, debuff: bool)
        requires
            debuff ==> old(self).0 + stacks <= u16::MAX,
        ensures
            final(self).0 == removed_u16(old(self).0, stacks, debuff),
    {
        self.0 = if debuff {
            self.0 + stacks as u16
        } else {
            lower_u16(self.0, stacks)
        };
    }
}

/// A buff that starts and ends gives a signed stat back its value; so does a debuff, as long as
/// lowering did not stop at the smallest value.
pub proof fn lemma_effect_round_trip_i16(value: i16, stacks: u8, debuff: bool)
    requires
        debuff ==> value - stacks >= i16::MIN,
        !debuff ==> raise_fits_i16(value, stacks),
    ensures
        removed_i16(added_i16(value, stacks, debuff), stacks, debuff) == value,
{
}

/// A buff that starts and ends gives an unsigned stat back its value; so does a debuff, as long
/// as lowering did not stop at zero.
pub proof fn lemma_effect_round_trip_u16(value: u16, stacks: u8, debuff: bool)
    requires
        debuff ==> value >= stacks,
        !debuff ==> value + stacks <= u16::MAX,
    ensures
        removed_u16(added_u16(value, stacks, debuff), stacks, debuff) == value,
{
}

} // verus!
