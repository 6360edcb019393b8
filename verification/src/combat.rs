//! Attacking, being hit, and the training dummy.
use crate::alive::Health;
use crate::timer::{reset_spec, Timer};
use vstd::prelude::*;

verus! {

/// A training dummy: it takes hits and heals back to full every tick.
#[derive(Clone, Copy, Debug)]
pub struct Dummy;

/// Attacking: allowed once the attack cooldown has finished, which then starts over. Returns
/// whether the attack goes off.
pub fn try_attack(attack: &mut Timer) -> (attacked: bool)
    ensures
        attacked == old(attack)@.finished,
        final(attack)@ == if attacked {
            reset_spec(old(attack)@)
        } else {
            old(attack)@
        },
{
    if attack.is_finished() {
        attack.reset();
        true
    } else {
        false
    }
}

/// Heals a dummy back to full. Returns the damage it had taken, if any.
pub fn restore_dummy(health: &mut Health) -> (taken: Option<u16>)
    ensures
        final(health).0.cap == old(health).0.cap,
        old(health).0.current < old(health).0.cap ==> {
            &&& taken == Some((old(health).0.cap - old(health).0.current) as u16)
            &&& final(health).0.current == old(health).0.cap
        },
        old(health).0.current >= old(health).0.cap ==> {
            &&& taken is None
            &&& *final(health) == *old(health)
        },
{
    if health.0.current < health.0.cap {
        let taken = health.0.cap - health.0.current;
        health.0.fill();
        Some(taken)
    } else {
        None
    }
}

/// Two attacks in a row with no time passing in between: the second never goes off.
pub proof fn lemma_attack_once_per_cooldown(t: crate::timer::TimerModel)
    ensures
        t.finished ==> !reset_spec(t).finished,
{
}

} // verus!
