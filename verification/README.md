# dread_crawler

The level-building and spawning rules of the roguelike "Dread Crawler",
as a library whose contracts Verus proves.

- `src/map.rs`: the tile grid and the conversions between tile indices and points.
- `src/map_builder/`: the level builder (monster spawns, the farthest reachable
  tile, the architect and theme draws) and the fortress vault (`prefab.rs`).
- `src/spawner/`: what the player, the amulet and the templated monsters and
  items are made of.
- `src/systems.rs`: the order in which the game's systems run.
- `app/`: the program around the library: reading templates (RON), the
  path-finding flow (`bracket-lib`), and the `legion` world.

Distances from the player are handed to the library as distance keys: the bit
pattern of each non-negative `f32` distance, which orders as the distances do.
