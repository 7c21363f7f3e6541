# rustcraft

A small block world: a main menu, a world-creation screen, and a terrain of
16 x 64 x 16 block chunks that the player walks on.

- `src/` is the verified library. `world/` holds blocks, chunks, terrain
  generation from a relief map and the world description; `ui/` the buttons,
  the two menus and the bitmap font; `engine/` the window events and the
  keyboard state; `game/` the game modes, the chunk store of a running world
  and the screen transitions that events drive.
- `app/` is the program around it: the SDL window and its events, OpenGL
  drawing, the clock, the floating-point camera, player physics and value
  noise that yields relief maps, and reading and writing worlds as JSON.
- `tests/` runs the library on concrete inputs.
