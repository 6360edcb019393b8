//! The rules behind the server console's commands.
use crate::alive::Health;
use crate::character::{
    parse_ability_spec,
    AbilityId,
    Character,
    CharacterData,
    CharacterName,
    Cooldowns,
    initial_cooldown,
    warrior_abilities,
};
use crate::input::N_ABILITIES;
use crate::message::EntityBits;
use crate::text::str_eq;
use crate::warrior::combo_slot;
use vstd::prelude::*;

verus! {

/// The strike bonus, in percent of DPS, of a warrior chosen at the console.
pub const CONSOLE_STRIKE_BONUS_PERCENT: u8 = 10;

/// Whether every character of `d` is a decimal digit.
pub open spec fn all_digits(d: Seq<char>) -> bool {
    forall|i: int| 0 <= i < d.len() ==> '0' <= #[trigger] d[i] <= '9'
}

/// The number the decimal digits `d` write.
pub open spec fn digits_value(d: Seq<char>) -> nat
    decreases d.len(),
{
    if d.len() == 0 {
        0
    } else {
        digits_value(d.drop_last()) * 10 + (d.last() as nat - '0' as nat) as nat
    }
}

/// The `u16` written in decimal by `s`: an optional `+` followed by one or more digits whose
/// value fits in a `u16`.
pub open spec fn decimal_u16(s: Seq<char>) -> Option<u16> {
    let d = if s.len() > 0 && s[0] == '+' {
        s.drop_first()
    } else {
        s
    };
    if d.len() > 0 && all_digits(d) && digits_value(d) <= u16::MAX {
        Some(digits_value(d) as u16)
    } else {
        None
    }
}

/// Parses a decimal `u16` with `str::parse`.
///
/// Trusted: the standard library documents `u16::from_str` as accepting an optional `+` sign
/// followed by digits only, and failing on an empty string, any other character, or a value
/// out of range; the contract states exactly that.
#[verifier::external_body]
fn parse_u16(s: &str) -> (r: Option<u16>)
    ensures
        r == decimal_u16(s@),
{
    s.parse::<u16>().ok()
}

/// The new value of the health command.
#[derive(Clone, Copy, Debug, PartialEq, Eq, Structural)]
pub enum HealthInput {
    /// Full health.
    Max,
    /// An exact amount.
    Amount(u16),
}

/// The health command's value as written: `max`, or a decimal amount.
pub open spec fn parse_health_input_spec(s: Seq<char>) -> Option<HealthInput> {
    if s == seq!['m', 'a', 'x'] {
        Some(HealthInput::Max)
    } else {
        match decimal_u16(s) {
            Some(n) => Some(HealthInput::Amount(n)),
            None => None,
        }
    }
}

/// Reads the health command's value: `max` or a decimal amount.
pub fn parse_health_input(s: &str) -> (r: Option<HealthInput>)
    ensures
        r == parse_health_input_spec(s@),
{
    let max = "max";
    proof {
        reveal_strlit("max");
        assert(max@ =~= seq!['m', 'a', 'x']);
    }
    if str_eq(s, max) {
        Some(HealthInput::Max)
    } else {
        match parse_u16(s) {
            Some(n) => Some(HealthInput::Amount(n)),
            None => None,
        }
    }
}

/// The health command on a target: sets its health to the amount given (or its cap for
/// `max`); without an amount it changes nothing and reports the current health.
pub fn health_command(health: &mut Health, amount: Option<HealthInput>) -> (report: Option<u16>)
    ensures
        final(health).0.cap == old(health).0.cap,
        match amount {
            None => report == Some(old(health).0.current) && *final(health) == *old(health),
            Some(HealthInput::Max) => report is None && final(health).0.current == old(health).0.cap,
            Some(HealthInput::Amount(n)) => report is None && final(health).0.current == n,
        },
{
    match amount {
        None => Some(health.0.current),
        Some(HealthInput::Max) => {
            health.0.fill();
            None
        },
        Some(HealthInput::Amount(n)) => {
            health.0.current = n;
            None
        },
    }
}

/// How a slot command ended.
#[derive(Clone, Copy, Debug, PartialEq, Eq, Structural)]
pub enum SlotOutcome {
    /// The ability was slotted.
    Slotted,
    /// No ability has that name; nothing changed, but the slot is still announced.
    InvalidAbility,
    /// There is no such slot; nothing changed and nothing is announced.
    InvalidSlot,
}

impl SlotOutcome {
    /// Whether clients are told about the slot.
    pub fn announces(&self) -> (b: bool)
        ensures
            b == (*self != SlotOutcome::InvalidSlot),
    {
        match self {
            SlotOutcome::InvalidSlot => false,
            _ => true,
        }
    }
}

/// The slot command: puts the ability named `ability` into slot `slot` (counted from one). When
/// that ability is Strike Combo, the combo index names that slot, so that a Strike readies it.
/// The slot must not be zero.
pub fn slot_command(data: &mut CharacterData, slot: usize, ability: &str) -> (o: SlotOutcome)
    requires
        slot >= 1,
    ensures
        slot > N_ABILITIES ==> o == SlotOutcome::InvalidSlot && *final(data) == *old(data),
        slot <= N_ABILITIES && parse_ability_spec(ability@) is None ==> o
            == SlotOutcome::InvalidAbility && *final(data) == *old(data),
        slot <= N_ABILITIES && parse_ability_spec(ability@) is Some ==> {
            let a = parse_ability_spec(ability@)->0;
            &&& o == SlotOutcome::Slotted
            &&& final(data)->abilities@ == old(data)->abilities@.update(slot - 1, a)
            &&& final(data)->combo_index == if a == AbilityId::StrikeCombo {
                Some(slot)
            } else {
                old(data)->combo_index
            }
            &&& final(data)->strike_bonus_percent == old(data)->strike_bonus_percent
            &&& final(data)->combo_window == old(data)->combo_window
            &&& final(data)->strike == old(data)->strike
            &&& final(data)->combo == old(data)->combo
            &&& final(data)->spin == old(data)->spin
            &&& final(data)->meditate == old(data)->meditate
            &&& final(data)->trance == old(data)->trance
        },
{
    if slot - 1 >= N_ABILITIES {
        return SlotOutcome::InvalidSlot;
    }
    match AbilityId::from_key(ability) {
        None => SlotOutcome::InvalidAbility,
        Some(a) => {
            let CharacterData::Warrior {
                abilities,
                strike_bonus_percent,
                combo_window,
                combo_index,
                strike,
                combo,
                spin,
                meditate,
                trance,
            } = *data;
            let mut abilities = abilities;
            abilities[slot - 1] = a;
            let combo_index = if a == AbilityId::StrikeCombo {
                Some(slot)
            } else {
                combo_index
            };
            *data =
            CharacterData::Warrior {
                abilities,
                strike_bonus_percent,
                combo_window,
                combo_index,
                strike,
                combo,
                spin,
                meditate,
                trance,
            };
            SlotOutcome::Slotted
        },
    }
}

/// Slotting Strike Combo makes a Strike ready that very slot: after the slot command has put
/// Strike Combo into slot `slot`, the slot whose flag a Strike sets holds Strike Combo.
pub proof fn lemma_slotted_combo_is_readied_by_strike(
    before: CharacterData,
    after: CharacterData,
    slot: usize,
)
    requires
        1 <= slot <= N_ABILITIES,
        after->abilities@ == before->abilities@.update(slot - 1, AbilityId::StrikeCombo),
        after->combo_index == Some(slot),
    ensures
        combo_slot(after) == Some(slot - 1),
        after->abilities@[slot - 1] == AbilityId::StrikeCombo,
{
}

/// The key by which a character is chosen at the console.
pub open spec fn character_key(c: CharacterName) -> Seq<char> {
    match c {
        CharacterName::Warrior => seq!['w', 'a', 'r', 'r', 'i', 'o', 'r'],
    }
}

impl CharacterName {
    /// The character chosen by `s`, if any.
    pub fn from_key(s: &str) -> (c: Option<CharacterName>)
        ensures
            c == (if s@ == character_key(CharacterName::Warrior) {
                Some(CharacterName::Warrior)
            } else {
                None
            }),
    {
        let key = "warrior";
        proof {
            reveal_strlit("warrior");
            assert(key@ =~= character_key(CharacterName::Warrior));
        }
        if str_eq(s, key) {
            Some(CharacterName::Warrior)
        } else {
            None
        }
    }
}

/// The character command: a fresh character of the chosen kind and the cooldowns of its
/// abilities. A warrior gets the console's strike bonus.
pub fn character_command(name: CharacterName) -> (r: (Character, Cooldowns))
    ensures
        r.0.channel is None,
        r.0.data->abilities@ == warrior_abilities(),
        r.0.data->strike_bonus_percent == CONSOLE_STRIKE_BONUS_PERCENT,
        r.0.data->combo_window is None,
        r.0.data->combo_index == Some(2usize),
        r.0.data->strike == false,
        r.0.data->combo == 0,
        r.0.data->spin is None,
        r.0.data->meditate is None,
        r.0.data->trance is None,
        r.1@.len() == N_ABILITIES,
        forall|i: int| 0 <= i < N_ABILITIES ==> r.1@[i] == initial_cooldown(#[trigger] warrior_abilities()[i]),
{
    match name {
        CharacterName::Warrior => {
            let (character, abilities) = Character::warrior(CONSOLE_STRIKE_BONUS_PERCENT);
            let cooldowns = Cooldowns::from(&abilities);
            (character, cooldowns)
        },
    }
}

/// Whether abilities ignore their cooldowns.
#[derive(Clone, Copy, Debug, Default, PartialEq, Eq, Structural)]
pub struct NoCD(pub bool);

/// Tells clients that the ability slot `index` (counted from zero) of `entity` changed.
#[derive(Clone, Copy, Debug, PartialEq, Eq, Structural)]
pub struct Slotted {
    pub entity: EntityBits,
    pub index: usize,
}

} // verus!
