# meaningless

A platformer played on a Game of Life grid: the player steps the simulation
forwards and backwards to make and break the platforms it jumps on.

- `src/` is the rules of the game, written in Verus with their contracts and
  proved: the grid simulation and its history (`life`, `gol`, `menu_cells`),
  the spiral and square layouts of the levels (`spiral`, `level_select`),
  level progress (`level_progress`), the menu, screen transition, dialogue
  and flag state machines (`navigation`, `transition`, `dialogue`, `flags`),
  and the animation state kept on entities (`anim`, `animations`, `player`).
- `tests/` runs the library on concrete inputs.
- `app/` is the game around the library: the Bevy plugins and systems, the
  floating-point physics, camera and layout, sound, and reading and writing
  the saved progress. It converts engine values to the library's types and
  back.
