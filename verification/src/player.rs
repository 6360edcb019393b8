//! The stats a player spawns with.
use crate::alive::{Agility, Cdr, Defense, Dps, Health, Luck, Mana};
use crate::timer::{new_spec, tick_spec, Timer, TimerMode, TimerModel};
use vstd::prelude::*;

verus! {

/// The base attack cooldown of a player: one second.
pub const ATTACK_COOLDOWN: u128 = 1_000_000_000;

/// The stats of a player to spawn.
#[derive(Clone, Copy, Debug, PartialEq, Eq, Structural)]
pub struct Player {
    pub health: u16,
    pub mana: u16,
    pub dps: u16,
    pub defense: i16,
    pub agility: i16,
    pub cdr: u16,
    pub luck: u8,
}

/// Builds a [`Player`]; defense, agility, cooldown reduction and luck default to zero.
#[derive(Clone, Copy, Debug, PartialEq, Eq, Structural)]
pub struct PlayerBuilder {
    player: Player,
}

impl View for PlayerBuilder {
    type V = Player;

    closed spec fn view(&self) -> Player {
        self.player
    }
}

/// Starts building a player with the given health, mana and DPS.
pub fn player(health: u16, mana: u16, dps: u16) -> (b: PlayerBuilder)
    ensures
        b@ == (Player { health, mana, dps, defense: 0, agility: 0, cdr: 0, luck: 0 }),
{
    PlayerBuilder { player: Player { health, mana, dps, defense: 0, agility: 0, cdr: 0, luck: 0 } }
}

impl PlayerBuilder {
    /// Sets the defense.
    pub fn defense(self, defense: i16) -> (b: PlayerBuilder)
        ensures
            b@ == (Player { defense, ..self@ }),
    {
        PlayerBuilder { player: Player { defense, ..self.player } }
    }

    /// Sets the agility.
    pub fn agility(self, agility: i16) -> (b: PlayerBuilder)
        ensures
            b@ == (Player { agility, ..self@ }),
    {
        PlayerBuilder { player: Player { agility, ..self.player } }
    }

    /// Sets the cooldown reduction.
    pub fn cdr(self, cdr: u16) -> (b: PlayerBuilder)
        ensures
            b@ == (Player { cdr, ..self@ }),
    {
        PlayerBuilder { player: Player { cdr, ..self.player } }
    }

    /// Sets the luck.
    pub fn luck(self, luck: u8) -> (b: PlayerBuilder)
        ensures
            b@ == (Player { luck, ..self@ }),
    {
        PlayerBuilder { player: Player { luck, ..self.player } }
    }

    /// The player built.
    pub fn build(self) -> (p: Player)
        ensures
            p == self@,
    {
        self.player
    }
}

/// The cooldown between two attacks of a player.
#[derive(Clone, Copy, Debug)]
pub struct AttackCooldown(pub Timer);

/// Marks a player standing on the ground.
#[derive(Clone, Copy, Debug)]
pub struct Grounded;

/// How a player is moving on the server.
#[derive(Clone, Copy, Debug, Default)]
pub struct Movement {
    pub ground_contacts: usize,
    pub bhop: bool,
}

/// The components a player spawns with.
#[derive(Clone, Copy, Debug)]
pub struct PlayerStats {
    pub health: Health,
    pub mana: Mana,
    pub dps: Dps,
    pub defense: Defense,
    pub agility: Agility,
    pub cdr: Cdr,
    pub luck: Luck,
    pub attack_cooldown: Timer,
}

/// A player's attack cooldown when it spawns: one nanosecond short of finished.
pub open spec fn spawn_attack_cooldown() -> TimerModel {
    tick_spec(new_spec(ATTACK_COOLDOWN, TimerMode::Once), (ATTACK_COOLDOWN - 1) as u128)
}

impl Player {
    /// The components of a freshly spawned player: full health and mana, its stats, and an
    /// attack cooldown that is ready one nanosecond later.
    pub fn stats(&self) -> (s: PlayerStats)
        ensures
            s.health.0.cap == self.health && s.health.0.current == self.health,
            s.mana.0.cap == self.mana && s.mana.0.current == self.mana,
            s.dps.0 == self.dps,
            s.defense.0 == self.defense,
            s.agility.0 == self.agility,
            s.cdr.0 == self.cdr,
            s.luck.0 == self.luck,
            s.attack_cooldown@ == spawn_attack_cooldown(),
    {
        let mut attack = Timer::new(ATTACK_COOLDOWN, TimerMode::Once);
        attack.almost_finish();
        PlayerStats {
            health: Health::new(self.health),
            mana: Mana::new(self.mana),
            dps: Dps(self.dps),
            defense: Defense(self.defense),
            agility: Agility(self.agility),
            cdr: Cdr(self.cdr),
            luck: Luck(self.luck),
            attack_cooldown: attack,
        }
    }
}

/// A freshly spawned player cannot attack at once, but can after one more nanosecond.
pub proof fn lemma_spawn_attack_ready_after_one_tick()
    ensures
        !spawn_attack_cooldown().finished,
        tick_spec(spawn_attack_cooldown(), 1).finished,
{
}

} // verus!
