//! Characters, their abilities and the cooldowns that gate them.
use crate::input::N_ABILITIES;
use crate::text::str_eq;
use crate::timer::{reset_spec, tick_spec, Timer, TimerMode, TimerModel, MAX_NANOS};
use vstd::prelude::*;

verus! {

/// The abilities a warrior can slot.
#[derive(Clone, Copy, Debug, PartialEq, Eq, Structural)]
pub enum AbilityId {
    /// Attack with additional damage and reset attack cooldown.
    Strike,
    /// Can be cast within a short window of casting Strike. Attack twice, each with additional
    /// strike damage, and reset attack cooldown.
    StrikeCombo,
    /// Spin in place, dealing damage to nearby enemies.
    Spin,
    /// Channel to heal a fraction of your maximum health.
    Meditate,
    /// Swipe an area in front of your feet, damaging and decreasing the agility of those hit.
    Kick,
    /// Leap into the air.
    Leap,
    /// Enter a trance state, increasing your damage and decreasing your attack cooldown.
    Trance,
    /// Temporarily decrease the defense of enemies in a cone in front of you.
    Crimp,
}

/// Cooldown of Strike: five seconds.
pub const STRIKE_COOLDOWN: u128 = 5_000_000_000;

/// Cooldown of every other timed ability: ten seconds.
pub const ABILITY_COOLDOWN: u128 = 10_000_000_000;

/// The key by which an ability is named in commands (its name in snake case).
pub open spec fn ability_key(a: AbilityId) -> Seq<char> {
    match a {
        AbilityId::Strike => seq!['s', 't', 'r', 'i', 'k', 'e'],
        AbilityId::StrikeCombo => seq![
            's',
            't',
            'r',
            'i',
            'k',
            'e',
            '_',
            'c',
            'o',
            'm',
            'b',
            'o',
        ],
        AbilityId::Spin => seq!['s', 'p', 'i', 'n'],
        AbilityId::Meditate => seq!['m', 'e', 'd', 'i', 't', 'a', 't', 'e'],
        AbilityId::Kick => seq!['k', 'i', 'c', 'k'],
        AbilityId::Leap => seq!['l', 'e', 'a', 'p'],
        AbilityId::Trance => seq!['t', 'r', 'a', 'n', 'c', 'e'],
        AbilityId::Crimp => seq!['c', 'r', 'i', 'm', 'p'],
    }
}

/// The ability a command key names, if any.
pub open spec fn parse_ability_spec(s: Seq<char>) -> Option<AbilityId> {
    if s == ability_key(AbilityId::Strike) {
        Some(AbilityId::Strike)
    } else if s == ability_key(AbilityId::StrikeCombo) {
        Some(AbilityId::StrikeCombo)
    } else if s == ability_key(AbilityId::Spin) {
        Some(AbilityId::Spin)
    } else if s == ability_key(AbilityId::Meditate) {
        Some(AbilityId::Meditate)
    } else if s == ability_key(AbilityId::Kick) {
        Some(AbilityId::Kick)
    } else if s == ability_key(AbilityId::Leap) {
        Some(AbilityId::Leap)
    } else if s == ability_key(AbilityId::Trance) {
        Some(AbilityId::Trance)
    } else if s == ability_key(AbilityId::Crimp) {
        Some(AbilityId::Crimp)
    } else {
        None
    }
}

/// The display name of an ability.
pub open spec fn ability_name(a: AbilityId) -> Seq<char> {
    match a {
        AbilityId::StrikeCombo => seq![
            'S',
            't',
            'r',
            'i',
            'k',
            'e',
            ' ',
            'C',
            'o',
            'm',
            'b',
            'o',
        ],
        AbilityId::Trance => seq![
            'B',
            'a',
            't',
            't',
            'l',
            'e',
            ' ',
            'T',
            'r',
            'a',
            'n',
            'c',
            'e',
        ],
        AbilityId::Strike => seq!['S', 't', 'r', 'i', 'k', 'e'],
        AbilityId::Spin => seq!['S', 'p', 'i', 'n'],
        AbilityId::Meditate => seq!['M', 'e', 'd', 'i', 't', 'a', 't', 'e'],
        AbilityId::Kick => seq!['K', 'i', 'c', 'k'],
        AbilityId::Leap => seq!['L', 'e', 'a', 'p'],
        AbilityId::Crimp => seq!['C', 'r', 'i', 'm', 'p'],
    }
}

/// The cooldown of an ability in nanoseconds, or none for an ability that is gated by a ready
/// flag instead of a timer.
pub open spec fn ability_cooldown_nanos(a: AbilityId) -> Option<u128> {
    match a {
        AbilityId::Strike => Some(STRIKE_COOLDOWN),
        AbilityId::StrikeCombo => None,
        _ => Some(ABILITY_COOLDOWN),
    }
}

/// What gates an ability: a timer that must have finished, or a flag that must be set.
#[derive(Clone, Copy, Debug)]
pub enum Cooldown {
    Timer(Timer),
    Ready(bool),
}

/// The mathematical state of a [`Cooldown`].
pub enum CooldownModel {
    Timer(TimerModel),
    Ready(bool),
}

impl View for Cooldown {
    type V = CooldownModel;

    open spec fn view(&self) -> CooldownModel {
        match *self {
            Cooldown::Timer(t) => CooldownModel::Timer(t@),
            Cooldown::Ready(b) => CooldownModel::Ready(b),
        }
    }
}

/// Whether a cooldown lets its ability be cast now.
pub open spec fn is_ready(c: CooldownModel) -> bool {
    match c {
        CooldownModel::Timer(t) => t.finished,
        CooldownModel::Ready(b) => b,
    }
}

/// A cooldown after its ability was cast: the timer starts over, the flag is cleared.
pub open spec fn spent(c: CooldownModel) -> CooldownModel {
    match c {
        CooldownModel::Timer(t) => CooldownModel::Timer(reset_spec(t)),
        CooldownModel::Ready(_) => CooldownModel::Ready(false),
    }
}

/// A cooldown after `delta` nanoseconds: a timer advances, a flag is left alone.
pub open spec fn cooled(c: CooldownModel, delta: u128) -> CooldownModel {
    match c {
        CooldownModel::Timer(t) => CooldownModel::Timer(tick_spec(t, delta)),
        CooldownModel::Ready(b) => CooldownModel::Ready(b),
    }
}

/// The cooldown an ability starts with: a finished one-shot timer of its cooldown, so it can be
/// cast at once, or a cleared flag.
pub open spec fn initial_cooldown(a: AbilityId) -> CooldownModel {
    match ability_cooldown_nanos(a) {
        Some(d) => CooldownModel::Timer(
            TimerModel {
                duration: d,
                elapsed: d,
                mode: TimerMode::Once,
                finished: true,
                times_finished_this_tick: 1,
            },
        ),
        None => CooldownModel::Ready(false),
    }
}

impl AbilityId {
    /// The key that names the ability in commands.
    pub fn key(&self) -> (s: &'static str)
        ensures
            s@ == ability_key(*self),
    {
        match self {
            AbilityId::Strike => {
                proof {
                    reveal_strlit("strike");
                }
                "strike"
            },
            AbilityId::StrikeCombo => {
                proof {
                    reveal_strlit("strike_combo");
                }
                "strike_combo"
            },
            AbilityId::Spin => {
                proof {
                    reveal_strlit("spin");
                }
                "spin"
            },
            AbilityId::Meditate => {
                proof {
                    reveal_strlit("meditate");
                }
                "meditate"
            },
            AbilityId::Kick => {
                proof {
                    reveal_strlit("kick");
                }
                "kick"
            },
            AbilityId::Leap => {
                proof {
                    reveal_strlit("leap");
                }
                "leap"
            },
            AbilityId::Trance => {
                proof {
                    reveal_strlit("trance");
                }
                "trance"
            },
            AbilityId::Crimp => {
                proof {
                    reveal_strlit("crimp");
                }
                "crimp"
            },
        }
    }

    /// The ability named by `s`, if any.
    pub fn from_key(s: &str) -> (a: Option<AbilityId>)
        ensures
            a == parse_ability_spec(s@),
    {
        if str_eq(s, AbilityId::Strike.key()) {
            Some(AbilityId::Strike)
        } else if str_eq(s, AbilityId::StrikeCombo.key()) {
            Some(AbilityId::StrikeCombo)
        } else if str_eq(s, AbilityId::Spin.key()) {
            Some(AbilityId::Spin)
        } else if str_eq(s, AbilityId::Meditate.key()) {
            Some(AbilityId::Meditate)
        } else if str_eq(s, AbilityId::Kick.key()) {
            Some(AbilityId::Kick)
        } else if str_eq(s, AbilityId::Leap.key()) {
            Some(AbilityId::Leap)
        } else if str_eq(s, AbilityId::Trance.key()) {
            Some(AbilityId::Trance)
        } else if str_eq(s, AbilityId::Crimp.key()) {
            Some(AbilityId::Crimp)
        } else {
            None
        }
    }

    /// The display name of the ability.
    pub fn name(&self) -> (s: &'static str)
        ensures
            s@ == ability_name(*self),
    {
        match self {
            AbilityId::Strike => {
                proof {
                    reveal_strlit("Strike");
                }
                "Strike"
            },
            AbilityId::StrikeCombo => {
                proof {
                    reveal_strlit("Strike Combo");
                }
                "Strike Combo"
            },
            AbilityId::Spin => {
                proof {
                    reveal_strlit("Spin");
                }
                "Spin"
            },
            AbilityId::Meditate => {
                proof {
                    reveal_strlit("Meditate");
                }
                "Meditate"
            },
            AbilityId::Kick => {
                proof {
                    reveal_strlit("Kick");
                }
                "Kick"
            },
            AbilityId::Leap => {
                proof {
                    reveal_strlit("Leap");
                }
                "Leap"
            },
            AbilityId::Trance => {
                proof {
                    reveal_strlit("Battle Trance");
                }
                "Battle Trance"
            },
            AbilityId::Crimp => {
                proof {
                    reveal_strlit("Crimp");
                }
                "Crimp"
            },
        }
    }

    /// The description of the ability.
    pub fn description(&self) -> (s: &'static str)
        ensures
            s@ == ability_description(*self),
    {
        match self {
            AbilityId::Strike => "Attack with additional damage and reset attack cooldown.",
            AbilityId::StrikeCombo => "Can be cast within a short window of casting Strike.\nAttack twice, each with additional strike damage, and reset attack cooldown.",
            AbilityId::Spin => "Spin in place, dealing damage to nearby enemies.",
            AbilityId::Meditate => "Channel to heal a fraction of your maximum health.",
            AbilityId::Kick => "Swipe an area in front of your feet, damaging and decreasing the agility of those hit.",
            AbilityId::Leap => "Leap into the air.",
            AbilityId::Trance => "Enter a trance state, increasing your damage and decreasing your attack cooldown. You cannot fall below 5% of your maximum health while entranced.",
            AbilityId::Crimp => "Temporarily decrease the defense of enemies in a cone in front of you.",
        }
    }

    /// The mana cost of the ability; no ability costs anything yet.
    pub fn cost(&self) -> (c: u16)
        ensures
            c == 0,
    {
        0
    }

    /// The cooldown the ability starts with.
    pub fn cooldown(&self) -> (c: Cooldown)
        ensures
            c@ == initial_cooldown(*self),
    {
        match self {
            AbilityId::StrikeCombo => Cooldown::Ready(false),
            AbilityId::Strike => {
                let mut t = Timer::new(STRIKE_COOLDOWN, TimerMode::Once);
                t.finish();
                Cooldown::Timer(t)
            },
            _ => {
                let mut t = Timer::new(ABILITY_COOLDOWN, TimerMode::Once);
                t.finish();
                Cooldown::Timer(t)
            },
        }
    }
}

/// The description of an ability.
pub open spec fn ability_description(a: AbilityId) -> Seq<char> {
    match a {
        AbilityId::Strike => "Attack with additional damage and reset attack cooldown."@,
        AbilityId::StrikeCombo => "Can be cast within a short window of casting Strike.\nAttack twice, each with additional strike damage, and reset attack cooldown."@,
        AbilityId::Spin => "Spin in place, dealing damage to nearby enemies."@,
        AbilityId::Meditate => "Channel to heal a fraction of your maximum health."@,
        AbilityId::Kick => "Swipe an area in front of your feet, damaging and decreasing the agility of those hit."@,
        AbilityId::Leap => "Leap into the air."@,
        AbilityId::Trance => "Enter a trance state, increasing your damage and decreasing your attack cooldown. You cannot fall below 5% of your maximum health while entranced."@,
        AbilityId::Crimp => "Temporarily decrease the defense of enemies in a cone in front of you."@,
    }
}

/// Each ability is named in commands by its variant's name in snake case.
pub proof fn lemma_ability_keys_are_snake_case()
    ensures
        ability_key(AbilityId::Strike) == seq!['s', 't', 'r', 'i', 'k', 'e'],
        ability_key(AbilityId::StrikeCombo) == seq![
            's', 't', 'r', 'i', 'k', 'e', '_', 'c', 'o', 'm', 'b', 'o'
        ],
        ability_key(AbilityId::Spin) == seq!['s', 'p', 'i', 'n'],
        ability_key(AbilityId::Meditate) == seq!['m', 'e', 'd', 'i', 't', 'a', 't', 'e'],
        ability_key(AbilityId::Kick) == seq!['k', 'i', 'c', 'k'],
        ability_key(AbilityId::Leap) == seq!['l', 'e', 'a', 'p'],
        ability_key(AbilityId::Trance) == seq!['t', 'r', 'a', 'n', 'c', 'e'],
        ability_key(AbilityId::Crimp) == seq!['c', 'r', 'i', 'm', 'p'],
{
}

/// The key of every ability names that ability and no other.
pub proof fn lemma_ability_key_round_trip(a: AbilityId)
    ensures
        parse_ability_spec(ability_key(a)) == Some(a),
{
    let k = ability_key(a);
    assert(ability_key(AbilityId::Strike)[0] == 's');
    match a {
        AbilityId::Strike => {},
        AbilityId::StrikeCombo => {
            assert(k.len() != ability_key(AbilityId::Strike).len());
        },
        AbilityId::Spin => {
            assert(k.len() != ability_key(AbilityId::Strike).len());
            assert(k.len() != ability_key(AbilityId::StrikeCombo).len());
        },
        AbilityId::Meditate => {
            assert(k[0] != ability_key(AbilityId::Strike)[0]);
            assert(k.len() != ability_key(AbilityId::StrikeCombo).len());
            assert(k.len() != ability_key(AbilityId::Spin).len());
        },
        AbilityId::Kick => {
            assert(k[0] != ability_key(AbilityId::Strike)[0]);
            assert(k[0] != ability_key(AbilityId::StrikeCombo)[0]);
            assert(k[0] != ability_key(AbilityId::Spin)[0]);
            assert(k[0] != ability_key(AbilityId::Meditate)[0]);
        },
        AbilityId::Leap => {
            assert(k[0] != ability_key(AbilityId::Strike)[0]);
            assert(k[0] != ability_key(AbilityId::StrikeCombo)[0]);
            assert(k[0] != ability_key(AbilityId::Spin)[0]);
            assert(k[0] != ability_key(AbilityId::Meditate)[0]);
            assert(k[0] != ability_key(AbilityId::Kick)[0]);
        },
        AbilityId::Trance => {
            assert(k[0] != ability_key(AbilityId::Strike)[0]);
            assert(k[0] != ability_key(AbilityId::StrikeCombo)[0]);
            assert(k[0] != ability_key(AbilityId::Spin)[0]);
            assert(k[0] != ability_key(AbilityId::Meditate)[0]);
            assert(k[0] != ability_key(AbilityId::Kick)[0]);
            assert(k[0] != ability_key(AbilityId::Leap)[0]);
        },
        AbilityId::Crimp => {
            assert(k[0] != ability_key(AbilityId::Strike)[0]);
            assert(k[0] != ability_key(AbilityId::StrikeCombo)[0]);
            assert(k[0] != ability_key(AbilityId::Spin)[0]);
            assert(k[0] != ability_key(AbilityId::Meditate)[0]);
            assert(k[0] != ability_key(AbilityId::Kick)[0]);
            assert(k[0] != ability_key(AbilityId::Leap)[0]);
            assert(k[0] != ability_key(AbilityId::Trance)[0]);
        },
    }
}

/// The cooldowns of the abilities in a character's slots.
#[derive(Clone, Copy, Debug)]
pub struct Cooldowns(pub [Cooldown; N_ABILITIES]);

impl View for Cooldowns {
    type V = Seq<CooldownModel>;

    open spec fn view(&self) -> Seq<CooldownModel> {
        self.0@.map_values(|c: Cooldown| c@)
    }
}

impl Cooldowns {
    /// The starting cooldowns of the abilities slotted in `abilities`, slot by slot.
    pub fn from(abilities: &[AbilityId; N_ABILITIES]) -> (c: Cooldowns)
        ensures
            c@.len() == N_ABILITIES,
            forall|i: int| 0 <= i < N_ABILITIES ==> c@[i] == initial_cooldown(#[trigger] abilities@[i]),
    {
        Cooldowns([
            abilities[0].cooldown(),
            abilities[1].cooldown(),
            abilities[2].cooldown(),
            abilities[3].cooldown(),
            abilities[4].cooldown(),
        ])
    }

    /// The cooldown of slot `index` (counted from zero).
    pub fn get(&self, index: usize) -> (c: Cooldown)
        requires
            index < N_ABILITIES,
        ensures
            c@ == self@[index as int],
    {
        self.0[index]
    }

    /// Replaces the cooldown of slot `index` (counted from zero).
    pub fn set(&mut self, index: usize, c: Cooldown)
        requires
            index < N_ABILITIES,
        ensures
            final(self)@ == old(self)@.update(index as int, c@),
    {
        self.0[index] = c;
        assert(self@ =~= old(self)@.update(index as int, c@));
    }

    /// Casting the ability of slot `index` (counted from zero): if its cooldown is ready, the
    /// cooldown is spent and the ability fires (`true`); otherwise nothing changes.
    pub fn try_activate(&mut self, index: usize) -> (fired: bool)
        requires
            index < N_ABILITIES,
        ensures
            fired == is_ready(old(self)@[index as int]),
            final(self)@ == if fired {
                old(self)@.update(index as int, spent(old(self)@[index as int]))
            } else {
                old(self)@
            },
    {
        let c = self.get(index);
        match c {
            Cooldown::Timer(mut t) => {
                if t.is_finished() {
                    t.reset();
                    self.set(index, Cooldown::Timer(t));
                    true
                } else {
                    false
                }
            },
            Cooldown::Ready(ready) => {
                if ready {
                    self.set(index, Cooldown::Ready(false));
                    true
                } else {
                    false
                }
            },
        }
    }

    /// Advances every timer cooldown by `delta` nanoseconds.
    pub fn tick(&mut self, delta: u128)
        ensures
            final(self)@.len() == old(self)@.len(),
            forall|i: int| 0 <= i < N_ABILITIES ==> final(self)@[i] == cooled(#[trigger] old(self)@[i], delta),
            forall|i: int|
                0 <= i < N_ABILITIES && old(self)@[i] is Ready ==> #[trigger] final(self)@[i]
                    == old(self)@[i],
    {
        let mut i: usize = 0;
        while i < N_ABILITIES
            invariant
                0 <= i <= N_ABILITIES,
                self@.len() == N_ABILITIES,
                old(self)@.len() == N_ABILITIES,
                forall|j: int| 0 <= j < i ==> self@[j] == cooled(#[trigger] old(self)@[j], delta),
                forall|j: int| i <= j < N_ABILITIES ==> self@[j] == old(self)@[j],
            decreases N_ABILITIES - i,
        {
            let c = self.get(i);
            match c {
                Cooldown::Timer(mut t) => {
                    t.tick(delta);
                    self.set(i, Cooldown::Timer(t));
                },
                Cooldown::Ready(_) => {},
            }
            i = i + 1;
        }
    }

    /// Marks the flag-gated ability of slot `index` (counted from zero) as ready or not; a timer
    /// cooldown is left alone.
    pub fn set_ready(&mut self, index: usize, ready: bool)
        requires
            index < N_ABILITIES,
        ensures
            final(self)@ == match old(self)@[index as int] {
                CooldownModel::Ready(_) => old(self)@.update(index as int, CooldownModel::Ready(ready)),
                CooldownModel::Timer(_) => old(self)@,
            },
    {
        match self.get(index) {
            Cooldown::Ready(_) => self.set(index, Cooldown::Ready(ready)),
            Cooldown::Timer(_) => {},
        }
    }
}

/// Casting an ability twice in a row, with no time passing in between, fires it at most once.
pub proof fn lemma_cast_twice_fires_once(c: CooldownModel)
    ensures
        is_ready(c) ==> !is_ready(spent(c)),
{
}

/// An ability that was just slotted can be cast at once if it has a cooldown timer; a
/// flag-gated ability cannot until its flag is set.
pub proof fn lemma_fresh_cooldown_ready(a: AbilityId)
    ensures
        is_ready(initial_cooldown(a)) <==> ability_cooldown_nanos(a) is Some,
{
}

/// Time passing never touches a flag: a flag-gated cooldown keeps its flag (and so whether it is
/// ready), while a timer cooldown stays a timer of the same duration and mode.
pub proof fn lemma_cooling_keeps_flags(b: bool, t: TimerModel, delta: u128)
    ensures
        cooled(CooldownModel::Ready(b), delta) == CooldownModel::Ready(b),
        is_ready(cooled(CooldownModel::Ready(b), delta)) == b,
        cooled(CooldownModel::Timer(t), delta) matches CooldownModel::Timer(u) && u.duration
            == t.duration && u.mode == t.mode,
{
}

/// A spent timer cooldown becomes ready again once its full cooldown has passed.
pub proof fn lemma_spent_timer_ready_after_cooldown(t: TimerModel, delta: u128)
    requires
        t.mode == TimerMode::Once,
        t.duration <= MAX_NANOS,
        delta >= t.duration,
    ensures
        is_ready(cooled(spent(CooldownModel::Timer(t)), delta)),
{
}

/// The playable characters.
#[derive(Clone, Copy, Debug, PartialEq, Eq, Structural)]
pub enum CharacterName {
    Warrior,
}

/// The state of a character.
#[derive(Clone, Copy, Debug)]
pub enum CharacterData {
    Warrior {
        /// The ability in each slot.
        abilities: [AbilityId; N_ABILITIES],
        /// Bonus damage of a strike, in percent of DPS.
        strike_bonus_percent: u8,
        /// Open while a Strike Combo may follow a Strike.
        combo_window: Option<Timer>,
        /// The slot (counted from one) whose ready flag a Strike sets.
        combo_index: Option<usize>,
        /// Whether the next hit carries the strike bonus.
        strike: bool,
        /// How many more hits of a combo follow.
        combo: u8,
        /// Pulses dealt so far and the pulse timer of a running spin.
        spin: Option<(usize, Timer)>,
        /// The heal timer of a running meditation.
        meditate: Option<Timer>,
        /// The timer of a running trance.
        trance: Option<Timer>,
    },
}

/// A character: its state and the channel it is holding, if any.
#[derive(Clone, Copy, Debug)]
pub struct Character {
    pub data: CharacterData,
    pub channel: Option<Timer>,
}

/// The abilities a warrior starts with.
pub open spec fn warrior_abilities() -> Seq<AbilityId> {
    seq![
        AbilityId::Strike,
        AbilityId::Leap,
        AbilityId::Spin,
        AbilityId::Meditate,
        AbilityId::Kick,
    ]
}

impl Character {
    /// A fresh warrior with the given strike bonus, and the abilities it has slotted.
    pub fn warrior(strike_bonus_percent: u8) -> (r: (Character, [AbilityId; N_ABILITIES]))
        ensures
            r.1@ == warrior_abilities(),
            r.0.channel is None,
            r.0.data->abilities@ == warrior_abilities(),
            r.0.data->strike_bonus_percent == strike_bonus_percent,
            r.0.data->combo_window is None,
            r.0.data->combo_index == Some(2usize),
            r.0.data->strike == false,
            r.0.data->combo == 0,
            r.0.data->spin is None,
            r.0.data->meditate is None,
            r.0.data->trance is None,
    {
        let abilities = [
            AbilityId::Strike,
            AbilityId::Leap,
            AbilityId::Spin,
            AbilityId::Meditate,
            AbilityId::Kick,
        ];
        assert(abilities@ =~= warrior_abilities());
        (
            Character {
                data: CharacterData::Warrior {
                    strike_bonus_percent,
                    abilities,
                    combo_window: None,
                    combo_index: Some(2),
                    strike: false,
                    combo: 0,
                    spin: None,
                    meditate: None,
                    trance: None,
                },
                channel: None,
            },
            abilities,
        )
    }
}

impl CharacterData {
    /// The ability in slot `slot` (counted from one).
    pub fn ability(&self, slot: usize) -> (a: AbilityId)
        requires
            1 <= slot <= N_ABILITIES,
        ensures
            a == self->abilities@[slot - 1],
    {
        match self {
            CharacterData::Warrior { abilities, .. } => abilities[slot - 1],
        }
    }

    /// Which character this is.
    pub fn character_name(&self) -> (n: CharacterName)
        ensures
            n == CharacterName::Warrior,
    {
        match self {
            CharacterData::Warrior { .. } => CharacterName::Warrior,
        }
    }

    /// The name of the character.
    pub fn name(&self) -> (s: &'static str)
        ensures
            s@ == seq!['W', 'a', 'r', 'r', 'i', 'o', 'r'],
    {
        proof {
            reveal_strlit("Warrior");
        }
        "Warrior"
    }
}

} // verus!
