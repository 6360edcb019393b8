# raid_race_lib

The rules of a small networked arena brawler, verified with Verus.

`src/` is the verified library:

- `timer` — nanosecond countdown timers (one-shot and repeating) that drive every cooldown and
  effect;
- `alive` — identifiers, health and mana meters and combat stats;
- `status` — poison and stackable buffs and debuffs;
- `character`, `warrior` — abilities, their cooldowns, and the warrior's casts and running
  effects (combo, spin, meditation, trance);
- `combat`, `player`, `ids` — attacking, the training dummy, spawn stats and entity ids;
- `message`, `input`, `client`, `server`, `config`, `console`, `weapon` — network messages and
  buttons, input actions, client view state, server lookups, constants and key decoding, and the
  rules behind the server console's commands;
- `text` — string comparison by characters.

`app/` is ordinary Rust around it: the Bevy systems and observers that apply the rules to the
ECS world, physics and camera math in floating point, networking, the server console and the
authentication service.

`tests/` runs the library, including comparisons of its timer against Bevy's and of its integer
formulas against the game's floating-point ones on every input.
