//! Game logic of a small grid game: a player dodges enemies that cross a
//! square board, and the board is shown on a grid of LEDs or on a screen.
//!
//! - `direction`: the eight directions, the opposite of each, and how the
//!   player turns on a diagonal input.
//! - `input`: arrow keys and thumbstick readings turned into directions.
//! - `position`: cells of the board and steps between them.
//! - `timer`: the timers that pace moves.
//! - `entities`: the player, the enemies, their colours and the game states.
//! - `spawn`: random directions, hues and entry cells of new enemies.
//! - `systems`: one round of each part of the game, as state in, state and
//!   outcome out.
//! - `lights`: the LED grid and the strip that drives it.
//! - `watermark`: the LED board's bookkeeping: the lowest free-heap reading
//!   seen, how it is stored, and when the status LED blinks.

pub mod direction;
pub mod entities;
pub mod input;
pub mod lights;
pub mod position;
mod rng;
pub mod spawn;
pub mod systems;
pub mod timer;
pub mod watermark;

pub use direction::{Direction, DirectionType};
pub use entities::{
    DeathThroes, Enemy, EntityColor, GameState, InGameState, InputEvent, LastEnemyDirection,
    Player, ShowDeathThroes, DEATH_THROWS_COUNT, DEATH_THROWS_SPEED_MILLIS,
    ENEMY_MOVE_SPEED_MILLIS, MAX_ENEMIES, PLAYER_MOVE_SPEED_MILLIS,
};
pub use input::{keyboard_direction, thumbstick_direction};
pub use lights::{
    build_grid_buffer_map, process_lights, update_render_proxy, BoardOrientation, GridBufferMap, LedBuffer,
    LedGrid, Rgb, LED_COUNT, UBOARD_SIZE,
};
pub use position::{Position, BOARD_SIZE};
pub use systems::{
    advance_death_throes, advance_enemies, advance_player, dying_enter, dying_exit, dying_update_death_throes, home_update_wait_for_player_interaction,
    in_game_exit_core, running_update_enemy_position, running_update_player_position,
    running_update_try_spawn_enemies, startup_core, DeathStep, EnemyStep, Mover, PlayerStep,
};
pub use timer::{EntityTimer, Timer};
pub use watermark::{
    could_write, decode_heap_low, encode_heap_low, record_heap_low, should_flop,
};
