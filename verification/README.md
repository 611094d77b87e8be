# dq_like_rpg

The rules of a small dungeon-quest style role-playing game, verified with Verus:
character growth and levels, items and skills, the enemy table, battles,
world-map generation, walking the map, keyboard commands per scene, battle
effects and the sound channels.

- `src/` is the verified library. Each module states its behaviour over spec
  functions (`map::generated_fields`, `events::battle_outcome`,
  `explore::explore_move`, ...) and proves the game's laws as public proof
  functions (`lemma_*`). Random draws go through two trusted wrappers of the
  `rand` crate in `src/chance.rs`; functions that draw also have a variant that
  takes the draw as an argument (`attack_with_rolls`, `generate_map_from`,
  `arrival_event_with_roll`, `level_from_roll`).
- `tests/` runs the library on concrete values.
- `app/` is the game itself on the Bevy engine: scenes, drawing, sound, asset
  loading and the camera's floating-point glide, calling the library for every
  decision.
