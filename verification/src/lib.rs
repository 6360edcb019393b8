//! Game rules of a small arena brawler: living entities with health and mana meters, status
//! effects, ability cooldowns and a warrior character, with the timers that drive them.
pub mod alive;
pub mod character;
pub mod client;
pub mod combat;
pub mod config;
pub mod console;
pub mod ids;
pub mod input;
pub mod message;
pub mod player;
pub mod server;
pub mod status;
pub mod text;
pub mod timer;
pub mod warrior;
pub mod weapon;
