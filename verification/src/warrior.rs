//! The warrior: its abilities and the per-tick rules of its running effects.
use crate::alive::{healed, Defense, Health};
use crate::character::{Character, CharacterData, CooldownModel, Cooldowns};
use crate::input::N_ABILITIES;
use crate::status::{AgilityDown, DefenseDown, StackableStatusEffect};
use crate::timer::{new_spec, tick_spec, Timer, TimerMode, TimerModel, MAX_NANOS};
use vstd::prelude::*;

verus! {

/// How long a Strike Combo may follow a Strike: three seconds.
pub const COMBO_WINDOW: u128 = 3_000_000_000;

/// How many attacks a Strike Combo makes.
pub const COMBO_HITS: u8 = 2;

/// The period between two pulses of a spin: a fifth of its one-second duration.
pub const SPIN_PERIOD: u128 = 200_000_000;

/// How many pulses a spin deals.
pub const SPIN_PULSES: usize = 5;

/// How long a meditation channels: two and a half seconds.
pub const MEDITATE_DURATION: u128 = 2_500_000_000;

/// The period between two heals of a meditation: a fifth of its duration.
pub const MEDITATE_PERIOD: u128 = 500_000_000;

/// How long a trance lasts: seven seconds.
pub const TRANCE_DURATION: u128 = 7_000_000_000;

/// Damage of a kick before defense.
pub const KICK_DAMAGE: u16 = 6;

/// Agility stacks a kick takes away.
pub const KICK_AGILITY_DOWN_STACKS: u8 = 40;

/// How long a kick's agility debuff lasts: five seconds.
pub const KICK_DEBUFF_DURATION: u128 = 5_000_000_000;

/// How long a crimp's defense debuff lasts: two seconds.
pub const CRIMP_DEBUFF_DURATION: u128 = 2_000_000_000;

/// The attack cooldown during a trance: a quarter (rounded down) shorter.
pub open spec fn trance_cooldown(d: u128) -> u128 {
    (d - d / 4) as u128
}

/// The attack cooldown after a trance ends: a third (rounded down) longer.
pub open spec fn post_trance_cooldown(d: u128) -> int {
    d + d / 3
}

/// DPS stacks a trance grants: a quarter more than the DPS (rounded down), at most 255.
pub open spec fn trance_stacks(dps: u16) -> int {
    if dps * 5 / 4 > 255 {
        255
    } else {
        dps * 5 / 4
    }
}

/// The health a trance keeps its warrior at: a twentieth of the cap (rounded down).
pub open spec fn trance_floor(cap: u16) -> int {
    cap as int / 20
}

/// One heal of a meditation: a fiftieth of the cap (rounded down), two percent.
pub open spec fn meditate_heal(cap: u16) -> int {
    cap as int / 50
}

/// Damage of one spin pulse before defense: twice the DPS over the pulse period, that is two
/// fifths of the DPS (rounded down).
pub open spec fn spin_damage(dps: u16) -> int {
    dps * 2 / 5
}

/// Defense stacks a crimp takes away: fifteen percent of the target's positive defense (rounded
/// down, at most 255), and at least one.
pub open spec fn crimp_stacks(defense: i16) -> int {
    let s = if defense <= 0 {
        0
    } else if defense * 15 / 100 > 255 {
        255
    } else {
        defense * 15 / 100
    };
    if s < 1 {
        1
    } else {
        s
    }
}

/// The slot index (counted from zero) a Strike's combo flag lives in, if the warrior has one.
pub open spec fn combo_slot(data: CharacterData) -> Option<int> {
    match data->combo_index {
        Some(s) => if 1 <= s <= N_ABILITIES {
            Some(s - 1)
        } else {
            None
        },
        None => None,
    }
}

/// Cooldowns with the flag of slot `i`, if that slot is flag-gated, set to `ready`.
pub open spec fn flag_set(c: Seq<CooldownModel>, i: Option<int>, ready: bool) -> Seq<CooldownModel> {
    match i {
        Some(i) => match c[i] {
            CooldownModel::Ready(_) => c.update(i, CooldownModel::Ready(ready)),
            CooldownModel::Timer(_) => c,
        },
        None => c,
    }
}

/// Everything but the strike flag, combo count and combo window is the same.
pub open spec fn same_but_strike(a: CharacterData, b: CharacterData) -> bool {
    &&& a->abilities == b->abilities
    &&& a->strike_bonus_percent == b->strike_bonus_percent
    &&& a->combo_index == b->combo_index
    &&& a->spin == b->spin
    &&& a->meditate == b->meditate
    &&& a->trance == b->trance
}

/// Everything but the running spin is the same.
pub open spec fn same_but_spin(a: CharacterData, b: CharacterData) -> bool {
    &&& a->abilities == b->abilities
    &&& a->strike_bonus_percent == b->strike_bonus_percent
    &&& a->combo_window == b->combo_window
    &&& a->combo_index == b->combo_index
    &&& a->strike == b->strike
    &&& a->combo == b->combo
    &&& a->meditate == b->meditate
    &&& a->trance == b->trance
}

/// Everything but the running meditation is the same.
pub open spec fn same_but_meditate(a: CharacterData, b: CharacterData) -> bool {
    &&& a->abilities == b->abilities
    &&& a->strike_bonus_percent == b->strike_bonus_percent
    &&& a->combo_window == b->combo_window
    &&& a->combo_index == b->combo_index
    &&& a->strike == b->strike
    &&& a->combo == b->combo
    &&& a->spin == b->spin
    &&& a->trance == b->trance
}

/// Everything but the running trance is the same.
pub open spec fn same_but_trance(a: CharacterData, b: CharacterData) -> bool {
    &&& a->abilities == b->abilities
    &&& a->strike_bonus_percent == b->strike_bonus_percent
    &&& a->combo_window == b->combo_window
    &&& a->combo_index == b->combo_index
    &&& a->strike == b->strike
    &&& a->combo == b->combo
    &&& a->spin == b->spin
    &&& a->meditate == b->meditate
}

/// Strike: finishes the attack cooldown (so the strike attacks at once), opens the combo
/// window, arms the strike bonus and sets the combo slot's ready flag. The strike then attacks.
/// The attack cooldown must not be past its duration, and the combo slot must not be zero.
pub fn cast_strike(data: &mut CharacterData, attack: &mut Timer, cooldowns: &mut Cooldowns)
    requires
        old(attack)@.elapsed <= old(attack)@.duration,
        old(data)->combo_index != Some(0usize),
    ensures
        final(attack)@ == tick_spec(old(attack)@, (old(attack)@.duration - old(attack)@.elapsed) as u128),
        final(data)->combo_window matches Some(w) && w@ == new_spec(COMBO_WINDOW, TimerMode::Once),
        final(data)->strike,
        final(data)->combo == old(data)->combo,
        same_but_strike(*old(data), *final(data)),
        final(cooldowns)@ == flag_set(old(cooldowns)@, combo_slot(*old(data)), true),
        forall|j: int|
            0 <= j < N_ABILITIES && old(cooldowns)@[j] is Timer ==> #[trigger] final(cooldowns)@[j]
                == old(cooldowns)@[j],
{
    attack.finish();
    let CharacterData::Warrior {
        abilities,
        strike_bonus_percent,
        combo_window: _,
        combo_index,
        strike: _,
        combo,
        spin,
        meditate,
        trance,
    } = *data;
    *data =
    CharacterData::Warrior {
        abilities,
        strike_bonus_percent,
        combo_window: Some(Timer::new(COMBO_WINDOW, TimerMode::Once)),
        combo_index,
        strike: true,
        combo,
        spin,
        meditate,
        trance,
    };
    if let Some(slot) = combo_index {
        let i = slot - 1;
        if i < N_ABILITIES {
            cooldowns.set_ready(i, true);
        }
    }
}

/// Strike Combo: only within the combo window. Finishes the attack cooldown, closes the window
/// and starts a combo of two attacks; returns whether it did (and so attacks).
pub fn cast_strike_combo(data: &mut CharacterData, attack: &mut Timer) -> (attacked: bool)
    requires
        old(attack)@.elapsed <= old(attack)@.duration,
    ensures
        attacked == (old(data)->combo_window matches Some(w) && !w@.finished),
        attacked ==> {
            &&& final(attack)@ == tick_spec(
                old(attack)@,
                (old(attack)@.duration - old(attack)@.elapsed) as u128,
            )
            &&& final(data)->combo_window is None
            &&& final(data)->combo == COMBO_HITS
            &&& final(data)->strike == old(data)->strike
            &&& same_but_strike(*old(data), *final(data))
        },
        !attacked ==> *final(data) == *old(data) && final(attack)@ == old(attack)@,
{
    let CharacterData::Warrior {
        abilities,
        strike_bonus_percent,
        combo_window,
        combo_index,
        strike,
        combo: _,
        spin,
        meditate,
        trance,
    } = *data;
    match combo_window {
        Some(w) => {
            if !w.is_finished() {
                attack.finish();
                *data =
                CharacterData::Warrior {
                    abilities,
                    strike_bonus_percent,
                    combo_window: None,
                    combo_index,
                    strike,
                    combo: COMBO_HITS,
                    spin,
                    meditate,
                    trance,
                };
                true
            } else {
                false
            }
        },
        None => false,
    }
}

/// Spin: starts a spin whose first pulse comes one nanosecond later.
pub fn cast_spin(data: &mut CharacterData)
    ensures
        final(data)->spin matches Some(s) && s.0 == 0 && s.1@ == tick_spec(
            new_spec(SPIN_PERIOD, TimerMode::Repeating),
            (SPIN_PERIOD - 1) as u128,
        ),
        same_but_spin(*old(data), *final(data)),
{
    let mut timer = Timer::new(SPIN_PERIOD, TimerMode::Repeating);
    timer.almost_finish();
    let CharacterData::Warrior {
        abilities,
        strike_bonus_percent,
        combo_window,
        combo_index,
        strike,
        combo,
        spin: _,
        meditate,
        trance,
    } = *data;
    *data =
    CharacterData::Warrior {
        abilities,
        strike_bonus_percent,
        combo_window,
        combo_index,
        strike,
        combo,
        spin: Some((0, timer)),
        meditate,
        trance,
    };
}

/// Meditate: starts a channel and a meditation that heals every half second.
pub fn cast_meditate(character: &mut Character)
    ensures
        final(character).channel matches Some(c) && c@ == new_spec(
            MEDITATE_DURATION,
            TimerMode::Once,
        ),
        final(character).data->meditate matches Some(m) && m@ == new_spec(
            MEDITATE_PERIOD,
            TimerMode::Repeating,
        ),
        same_but_meditate(old(character).data, final(character).data),
{
    character.channel = Some(Timer::new(MEDITATE_DURATION, TimerMode::Once));
    let CharacterData::Warrior {
        abilities,
        strike_bonus_percent,
        combo_window,
        combo_index,
        strike,
        combo,
        spin,
        meditate: _,
        trance,
    } = character.data;
    character.data =
    CharacterData::Warrior {
        abilities,
        strike_bonus_percent,
        combo_window,
        combo_index,
        strike,
        combo,
        spin,
        meditate: Some(Timer::new(MEDITATE_PERIOD, TimerMode::Repeating)),
        trance,
    };
}

/// Trance: shortens the attack cooldown by a quarter and starts the trance. Returns the DPS
/// stacks the trance grants, if any.
pub fn cast_trance(data: &mut CharacterData, attack: &mut Timer, dps: u16) -> (stacks: Option<u8>)
    ensures
        final(attack)@ == (TimerModel { duration: trance_cooldown(old(attack)@.duration), ..old(attack)@ }),
        final(data)->trance matches Some(t) && t@ == new_spec(TRANCE_DURATION, TimerMode::Once),
        same_but_trance(*old(data), *final(data)),
        stacks == if trance_stacks(dps) == 0 {
            None::<u8>
        } else {
            Some(trance_stacks(dps) as u8)
        },
{
    let d = attack.duration();
    attack.set_duration(d - d / 4);
    let CharacterData::Warrior {
        abilities,
        strike_bonus_percent,
        combo_window,
        combo_index,
        strike,
        combo,
        spin,
        meditate,
        trance: _,
    } = *data;
    *data =
    CharacterData::Warrior {
        abilities,
        strike_bonus_percent,
        combo_window,
        combo_index,
        strike,
        combo,
        spin,
        meditate,
        trance: Some(Timer::new(TRANCE_DURATION, TimerMode::Once)),
    };
    let boosted: u32 = dps as u32 * 5 / 4;
    let s: u8 = if boosted > 255 {
        255
    } else {
        boosted as u8
    };
    if s == 0 {
        None
    } else {
        Some(s)
    }
}

/// The agility debuff a kick puts on those it hits.
pub fn kick_debuff() -> (d: AgilityDown)
    ensures
        d.0.stack_count() == KICK_AGILITY_DOWN_STACKS,
        d.0.timer_state() == new_spec(KICK_DEBUFF_DURATION, TimerMode::Once),
{
    AgilityDown(StackableStatusEffect::new(KICK_AGILITY_DOWN_STACKS, KICK_DEBUFF_DURATION))
}

/// The defense debuff a crimp puts on a target with the given defense.
pub fn crimp_debuff(defense: Defense) -> (d: DefenseDown)
    ensures
        d.0.stack_count() == crimp_stacks(defense.0),
        d.0.timer_state() == new_spec(CRIMP_DEBUFF_DURATION, TimerMode::Once),
{
    let v = defense.0;
    let s: u8 = if v <= 0 {
        0
    } else if (v as i32) * 15 / 100 > 255 {
        255
    } else {
        ((v as i32) * 15 / 100) as u8
    };
    let s = if s < 1 {
        1
    } else {
        s
    };
    DefenseDown(StackableStatusEffect::new(s, CRIMP_DEBUFF_DURATION))
}

/// Whether a hit during a combo with `combo` hits left attacks again: only when another hit of
/// the combo is still to come after this one.
pub open spec fn attacks_again(combo: u8) -> bool {
    combo >= 2
}

/// The combo count after a hit: one less, stopping at zero.
pub open spec fn combo_after_hit(combo: u8) -> u8 {
    if combo > 0 {
        (combo - 1) as u8
    } else {
        0
    }
}

/// A hit never lengthens a combo: within a combo it counts exactly one hit down, outside one it
/// starts none; it attacks again only if a hit of the combo is left after it.
pub proof fn lemma_hit_counts_combo_down(combo: u8)
    ensures
        combo_after_hit(combo) <= combo,
        combo > 0 ==> combo_after_hit(combo) + 1 == combo,
        combo == 0 ==> combo_after_hit(combo) == 0 && !attacks_again(combo),
        attacks_again(combo) ==> combo_after_hit(combo) > 0,
{
}

/// Setting a slot's flag touches nothing else: a timer cooldown anywhere is left as it is, every
/// other slot keeps its cooldown, and a flag-gated slot that is named gets the flag.
pub proof fn lemma_flag_set_touches_only_flags(c: Seq<CooldownModel>, i: Option<int>, ready: bool)
    requires
        i matches Some(k) ==> 0 <= k < c.len(),
    ensures
        flag_set(c, i, ready).len() == c.len(),
        forall|j: int|
            0 <= j < c.len() && (c[j] is Timer || i != Some(j)) ==> #[trigger] flag_set(c, i, ready)[j]
                == c[j],
        i matches Some(k) ==> (c[k] is Ready ==> flag_set(c, i, ready)[k] == CooldownModel::Ready(
            ready,
        )),
{
}

/// What a hit by a warrior does.
pub struct HitOutcome {
    /// Whether the hit carries the strike bonus.
    pub bonus: bool,
    /// Whether the combo attacks again.
    pub attack_again: bool,
}

/// A warrior's hit lands: it carries the strike bonus if a strike is armed or a combo runs; the
/// strike is used up, and a running combo counts one hit down and attacks again if it has a hit
/// left after this one.
pub fn on_hit(data: &mut CharacterData) -> (o: HitOutcome)
    ensures
        o.bonus == (old(data)->strike || old(data)->combo > 0),
        o.attack_again == attacks_again(old(data)->combo),
        final(data)->strike == false,
        final(data)->combo == combo_after_hit(old(data)->combo),
        final(data)->combo <= old(data)->combo,
        old(data)->combo == 0 ==> final(data)->combo == 0 && !o.attack_again,
        final(data)->combo_window == old(data)->combo_window,
        same_but_strike(*old(data), *final(data)),
{
    let CharacterData::Warrior {
        abilities,
        strike_bonus_percent,
        combo_window,
        combo_index,
        strike,
        combo,
        spin,
        meditate,
        trance,
    } = *data;
    let bonus = strike || combo > 0;
    let attack_again = combo >= 2;
    let combo = if combo > 0 {
        combo - 1
    } else {
        combo
    };
    *data =
    CharacterData::Warrior {
        abilities,
        strike_bonus_percent,
        combo_window,
        combo_index,
        strike: false,
        combo,
        spin,
        meditate,
        trance,
    };
    HitOutcome { bonus, attack_again }
}

/// Advances the combo window by `delta` nanoseconds; once it has run out, the combo slot's
/// ready flag is cleared. The combo slot must not be zero.
pub fn tick_combo_window(data: &mut CharacterData, cooldowns: &mut Cooldowns, delta: u128)
    requires
        old(data)->combo_window is Some ==> old(data)->combo_index != Some(0usize),
    ensures
        final(data)->abilities == old(data)->abilities,
        final(data)->combo_index == old(data)->combo_index,
        final(data)->strike == old(data)->strike,
        final(data)->combo == old(data)->combo,
        final(data)->spin == old(data)->spin,
        final(data)->meditate == old(data)->meditate,
        final(data)->trance == old(data)->trance,
        final(data)->strike_bonus_percent == old(data)->strike_bonus_percent,
        forall|j: int|
            0 <= j < N_ABILITIES && old(cooldowns)@[j] is Timer ==> #[trigger] final(cooldowns)@[j]
                == old(cooldowns)@[j],
        match old(data)->combo_window {
            None => final(data)->combo_window is None && final(cooldowns)@ == old(cooldowns)@,
            Some(w) => final(data)->combo_window matches Some(v) && v@ == tick_spec(w@, delta)
                && final(cooldowns)@ == if v@.finished {
                flag_set(old(cooldowns)@, combo_slot(*old(data)), false)
            } else {
                old(cooldowns)@
            },
        },
{
    let CharacterData::Warrior {
        abilities,
        strike_bonus_percent,
        combo_window,
        combo_index,
        strike,
        combo,
        spin,
        meditate,
        trance,
    } = *data;
    if let Some(mut w) = combo_window {
        w.tick(delta);
        *data =
        CharacterData::Warrior {
            abilities,
            strike_bonus_percent,
            combo_window: Some(w),
            combo_index,
            strike,
            combo,
            spin,
            meditate,
            trance,
        };
        if w.is_finished() {
            if let Some(slot) = combo_index {
                let i = slot - 1;
                if i < N_ABILITIES {
                    cooldowns.set_ready(i, false);
                }
            }
        }
    }
}

/// Advances a running spin by `delta` nanoseconds. Returns whether a pulse went off (and
/// damages those around); the spin ends once it has dealt all its pulses.
pub fn tick_spin(data: &mut CharacterData, delta: u128) -> (pulse: bool)
    requires
        old(data)->spin matches Some(s) ==> s.0 < SPIN_PULSES,
    ensures
        same_but_spin(*old(data), *final(data)),
        match old(data)->spin {
            None => !pulse && final(data)->spin is None,
            Some(s) => {
                let t = tick_spec(s.1@, delta);
                let n = if t.times_finished_this_tick > 0 {
                    s.0 + 1
                } else {
                    s.0 as int
                };
                &&& pulse == (t.times_finished_this_tick > 0)
                &&& if n >= SPIN_PULSES {
                    final(data)->spin is None
                } else {
                    final(data)->spin matches Some(f) && f.0 == n && f.1@ == t
                }
            },
        },
{
    let CharacterData::Warrior {
        abilities,
        strike_bonus_percent,
        combo_window,
        combo_index,
        strike,
        combo,
        spin,
        meditate,
        trance,
    } = *data;
    match spin {
        None => false,
        Some((n, mut t)) => {
            t.tick(delta);
            let pulse = t.just_finished();
            let n = if pulse {
                n + 1
            } else {
                n
            };
            let next = if n >= SPIN_PULSES {
                None
            } else {
                Some((n, t))
            };
            *data =
            CharacterData::Warrior {
                abilities,
                strike_bonus_percent,
                combo_window,
                combo_index,
                strike,
                combo,
                spin: next,
                meditate,
                trance,
            };
            pulse
        },
    }
}

/// Damage of one spin pulse for the given DPS, before defense.
pub fn spin_pulse_damage(dps: u16) -> (d: u16)
    ensures
        d == spin_damage(dps),
{
    (dps as u32 * 2 / 5) as u16
}

/// Advances a meditation and its channel by `delta` nanoseconds. A meditation whose channel had
/// already ended (or is gone) stops without healing. Otherwise each tick in which a period
/// completes heals two percent of the cap, which must then not overflow the health count; the
/// meditation stops once the channel runs out.
pub fn tick_meditate(character: &mut Character, health: &mut Health, delta: u128)
    requires
        old(character).data->meditate matches Some(m) && old(character).channel matches Some(c)
            && !c@.finished && tick_spec(m@, delta).times_finished_this_tick > 0
            ==> old(health).0.current + meditate_heal(old(health).0.cap) <= u16::MAX,
    ensures
        match old(character).channel {
            None => final(character).channel is None,
            Some(c) => final(character).channel matches Some(f) && f@ == tick_spec(c@, delta),
        },
        same_but_meditate(old(character).data, final(character).data),
        final(health).0.cap == old(health).0.cap,
        ({
            let ended = match old(character).channel {
                None => true,
                Some(c) => c@.finished,
            };
            match old(character).data->meditate {
                None => final(character).data->meditate is None && *final(health) == *old(health),
                Some(m) => if ended {
                    final(character).data->meditate is None && *final(health) == *old(health)
                } else {
                    let t = tick_spec(m@, delta);
                    let over = tick_spec(old(character).channel->0@, delta).finished;
                    &&& if over {
                        final(character).data->meditate is None
                    } else {
                        final(character).data->meditate matches Some(f) && f@ == t
                    }
                    &&& final(health).0.current == if t.times_finished_this_tick > 0 {
                        healed(old(health).0, meditate_heal(old(health).0.cap) as u16)
                    } else {
                        old(health).0.current
                    }
                },
            }
        }),
{
    let ended = match character.channel {
        None => true,
        Some(c) => c.is_finished(),
    };
    let channel = match character.channel {
        None => None,
        Some(c) => {
            let mut c = c;
            c.tick(delta);
            Some(c)
        },
    };
    let over = match channel {
        None => true,
        Some(c) => c.is_finished(),
    };
    character.channel = channel;
    let CharacterData::Warrior {
        abilities,
        strike_bonus_percent,
        combo_window,
        combo_index,
        strike,
        combo,
        spin,
        meditate,
        trance,
    } = character.data;
    match meditate {
        None => {},
        Some(mut m) => {
            let next = if ended {
                None
            } else {
                m.tick(delta);
                if m.just_finished() {
                    let heal = health.0.cap / 50;
                    health.add_assign(heal);
                }
                if over {
                    None
                } else {
                    Some(m)
                }
            };
            character.data =
            CharacterData::Warrior {
                abilities,
                strike_bonus_percent,
                combo_window,
                combo_index,
                strike,
                combo,
                spin,
                meditate: next,
                trance,
            };
        },
    }
}

/// How many times a meditation heals at most: once per period of its channel.
pub open spec fn meditate_heals() -> int {
    MEDITATE_DURATION as int / MEDITATE_PERIOD as int
}

/// A meditation whose channel is still running after it has healed `heals` times: its channel
/// and its heal timer have advanced together since the cast, and it has healed at most once per
/// whole period that has passed.
pub open spec fn meditation_running(channel: TimerModel, heal: TimerModel, heals: nat) -> bool {
    &&& channel.mode == TimerMode::Once
    &&& channel.duration == MEDITATE_DURATION
    &&& !channel.finished
    &&& channel.elapsed < MEDITATE_DURATION
    &&& heal.mode == TimerMode::Repeating
    &&& heal.duration == MEDITATE_PERIOD
    &&& heal.elapsed == channel.elapsed as int % MEDITATE_PERIOD as int
    &&& heals <= channel.elapsed as int / MEDITATE_PERIOD as int
}

/// A meditation just cast is running and has not healed yet.
pub proof fn lemma_meditation_starts_running()
    ensures
        meditation_running(
            new_spec(MEDITATE_DURATION, TimerMode::Once),
            new_spec(MEDITATE_PERIOD, TimerMode::Repeating),
            0,
        ),
{
}

/// A meditation heals at most five times: advancing a running meditation's channel and heal
/// timer together either keeps it running, or runs its channel out with at most
/// [`meditate_heals`] heals in all, the heal of this tick included.
pub proof fn lemma_meditation_heals_at_most_five(
    channel: TimerModel,
    heal: TimerModel,
    heals: nat,
    delta: u128,
)
    requires
        meditation_running(channel, heal, heals),
    ensures
        meditate_heals() == 5,
        ({
            let c = tick_spec(channel, delta);
            let m = tick_spec(heal, delta);
            let h: nat = if m.times_finished_this_tick > 0 {
                heals + 1
            } else {
                heals
            };
            if c.finished {
                h <= meditate_heals()
            } else {
                meditation_running(c, m, h)
            }
        }),
{
    let p = MEDITATE_PERIOD as int;
    let e = channel.elapsed as int;
    let q = e / p;
    let r = e % p;
    vstd::arithmetic::div_mod::lemma_fundamental_div_mod(e, p);
    vstd::arithmetic::div_mod::lemma_mod_bound(e, p);
    assert(q <= 4) by (nonlinear_arith)
        requires
            e == p * q + r,
            0 <= r,
            e < 5 * p,
            p > 0,
    ;
    if e + delta < MEDITATE_DURATION {
        let total = r + delta;
        if total >= p {
            let r2 = total - p;
            assert(e + delta == (q + 1) * p + r2) by (nonlinear_arith)
                requires
                    e == p * q + r,
                    total == r + delta,
                    r2 == total - p,
            ;
            if r2 < p {
                vstd::arithmetic::div_mod::lemma_fundamental_div_mod_converse(
                    e + delta,
                    p,
                    q + 1,
                    r2,
                );
                vstd::arithmetic::div_mod::lemma_fundamental_div_mod_converse(total, p, 1, r2);
            } else {
                vstd::arithmetic::div_mod::lemma_fundamental_div_mod(total, p);
                vstd::arithmetic::div_mod::lemma_mod_bound(total, p);
                let k = total / p;
                assert(e + delta == (q + k) * p + total % p) by (nonlinear_arith)
                    requires
                        e == p * q + r,
                        total == r + delta,
                        total == p * k + total % p,
                ;
                assert(k >= 1) by (nonlinear_arith)
                    requires
                        total >= p,
                        total == p * k + total % p,
                        total % p < p,
                        p > 0,
                ;
                vstd::arithmetic::div_mod::lemma_fundamental_div_mod_converse(
                    e + delta,
                    p,
                    q + k,
                    total % p,
                );
            }
        } else {
            assert(e + delta == q * p + total) by (nonlinear_arith)
                requires
                    e == p * q + r,
                    total == r + delta,
            ;
            vstd::arithmetic::div_mod::lemma_fundamental_div_mod_converse(e + delta, p, q, total);
        }
    }
}

/// Advances a trance by `delta` nanoseconds. When it runs out the trance ends and the attack
/// cooldown grows back by a third, which must not go past the longest time a timer holds; until
/// then health is kept at no less than five percent of the cap.
pub fn tick_trance(data: &mut CharacterData, health: &mut Health, attack: &mut Timer, delta: u128)
    requires
        old(data)->trance matches Some(t) && tick_spec(t@, delta).times_finished_this_tick > 0
            ==> post_trance_cooldown(old(attack)@.duration) <= MAX_NANOS,
    ensures
        same_but_trance(*old(data), *final(data)),
        final(health).0.cap == old(health).0.cap,
        match old(data)->trance {
            None => {
                &&& final(data)->trance is None
                &&& *final(health) == *old(health)
                &&& final(attack)@ == old(attack)@
            },
            Some(t) => {
                let u = tick_spec(t@, delta);
                if u.times_finished_this_tick > 0 {
                    &&& final(data)->trance is None
                    &&& final(attack)@ == (TimerModel {
                        duration: post_trance_cooldown(old(attack)@.duration) as u128,
                        ..old(attack)@
                    })
                    &&& *final(health) == *old(health)
                } else {
                    &&& final(data)->trance matches Some(v) && v@ == u
                    &&& final(attack)@ == old(attack)@
                    &&& final(health).0.current >= trance_floor(old(health).0.cap)
                    &&& final(health).0.current == if old(health).0.current < trance_floor(
                        old(health).0.cap,
                    ) {
                        trance_floor(old(health).0.cap)
                    } else {
                        old(health).0.current as int
                    }
                }
            },
        },
{
    let CharacterData::Warrior {
        abilities,
        strike_bonus_percent,
        combo_window,
        combo_index,
        strike,
        combo,
        spin,
        meditate,
        trance,
    } = *data;
    match trance {
        None => {},
        Some(mut t) => {
            t.tick(delta);
            let next = if t.just_finished() {
                let d = attack.duration();
                attack.set_duration(d + d / 3);
                None
            } else {
                let floor = health.0.cap / 20;
                if health.0.current < floor {
                    health.0.current = floor;
                }
                Some(t)
            };
            *data =
            CharacterData::Warrior {
                abilities,
                strike_bonus_percent,
                combo_window,
                combo_index,
                strike,
                combo,
                spin,
                meditate,
                trance: next,
            };
        },
    }
}

/// A trance shortens an attack cooldown by a quarter and its end lengthens it by a third of the
/// shortened cooldown; for a cooldown that is a whole number of four-nanosecond steps, that
/// gives the original cooldown back exactly.
pub proof fn lemma_trance_restores_cooldown(d: u128)
    requires
        d % 4 == 0,
    ensures
        post_trance_cooldown(trance_cooldown(d)) == d,
{
    assert(d / 4 * 4 == d);
    assert((d - d / 4) / 3 == d / 4);
}

/// A spin that is running has dealt fewer pulses than a spin deals: after any tick the spin is
/// either over or still short of its last pulse.
pub proof fn lemma_spin_pulses_bounded(n: usize, t: TimerModel, delta: u128)
    requires
        n < SPIN_PULSES,
    ensures
        ({
            let u = tick_spec(t, delta);
            let m = if u.times_finished_this_tick > 0 {
                n + 1
            } else {
                n as int
            };
            m <= SPIN_PULSES
        }),
{
}

/// A Strike Combo attacks exactly twice, each time with the strike bonus: its cast makes the first
/// attack; the first hit attacks again, the second does not, and the combo is then spent.
pub proof fn lemma_combo_hits()
    ensures
        COMBO_HITS > 0 && attacks_again(COMBO_HITS),
        combo_after_hit(COMBO_HITS) > 0 && !attacks_again(combo_after_hit(COMBO_HITS)),
        combo_after_hit(combo_after_hit(COMBO_HITS)) == 0,
{
}

} // verus!
