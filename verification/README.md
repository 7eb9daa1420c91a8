# kg_core

The logic of a small grid game, verified with Verus: a player moves on a
7×7 board and dodges enemies that cross it; touching one starts a short
death animation and sends the game back to its home screen. The program
here shows the board in a window. The library also holds the logic of a
second display, a 7×7 grid of LEDs driven as one strip and steered by a
thumbstick; the firmware for that board (an RP2040) is not built here.

- `src/` is the library: directions, input decoding (arrow keys and an
  analogue thumbstick), board positions and steps, timers, spawning, one
  round of each game system as state in and state and outcome out, the LED
  strip mapping and rendering, and the laws that relate them.
- `tests/` exercises the library on concrete values.
- `app/` is the bevy program around it: components, states and events that
  wrap the library's types, the systems that call the library, and drawing
  the board in a window (a tile per entity, or with `--grid` a tile per cell).

Timers read the clock through `std::time::Instant`, so the library runs where
std does; a build for the web or for the LED board would need their own clock.
