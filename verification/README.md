# rpg_engine

The rules of a small multiplayer action RPG, as a library verified with
Verus, and a headless authoritative server built on it.

- `src/` is the library, all of it checked by Verus; its functions state
  what they do in `requires`/`ensures` contracts:
  - `item`: equipment slots, equip and unequip.
  - `pathfinding`: grid A* (through the `pathfinding` crate) with
    corner-safe diagonal steps, the detailed search with its fallback to
    the closest reachable cell, and its diagnostics.
  - `protocol`: packet framing and parsing, and a chunk's model palette.
  - `chunk`: chunk seeds, biomes (drawn with `rand_pcg`), road tiles,
    padded pathfinding grids, streaming and reload rules, gate states.
  - `combat`, `session`, `targeting`: damage, death and revival, server
    admission, the client's connection state and spell targeting.
  - `server`: the server's session rules (login, character selection,
    joining, reconnecting, leaving) as a step from state and event to the
    next state and the actions to carry out.
  - `animation`, `character`, `enemy`, `environment`, `hitbox`, `editor`:
    sprite frames, character layers and their selection, enemy races,
    built-in templates, hitbox keys, and the map editor's selection and
    undo.
- `app/` is the server program: sockets, the database, serde message
  types and the floating-point world geometry. It carries out the
  actions the library's session rules return and feeds database answers
  back as events.
- `tests/` exercises the library on concrete values.
