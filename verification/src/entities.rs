use vstd::prelude::*;

use crate::direction::DirectionType;
use crate::position::{Position, BOARD_SIZE};
use crate::timer::EntityTimer;

verus! {

/// Milliseconds between two moves of the player.
pub const PLAYER_MOVE_SPEED_MILLIS: u64 = 75;

/// Milliseconds between two moves of an enemy.
pub const ENEMY_MOVE_SPEED_MILLIS: u64 = 250;

/// Milliseconds between two flashes of the death animation.
pub const DEATH_THROWS_SPEED_MILLIS: u64 = 250;

/// The death animation ends on this tick of its timer.
pub const DEATH_THROWS_COUNT: usize = 5;

/// Enemies are spawned while fewer than this many are on the board.
pub const MAX_ENEMIES: usize = 1;

/// The hue of the player's colour.
pub const PLAYER_HUE: u8 = 85;

/// Enemy hues closer than this to the player's hue are moved away from it.
pub const HUE_MARGIN: u8 = 5;

/// Whether the game waits on the home screen or is being played.
#[derive(Clone, Copy, PartialEq, Eq, Hash, Debug, Structural)]
pub enum GameState {
    Home,
    InGame,
}

impl Default for GameState {
    fn default() -> (r: Self)
        ensures
            r == GameState::Home,
    {
        GameState::Home
    }
}

/// While in game: whether the player is alive or its death is being shown.
#[derive(Clone, Copy, PartialEq, Eq, Hash, Debug, Structural)]
pub enum InGameState {
    Running,
    Dying,
}

impl Default for InGameState {
    fn default() -> (r: Self)
        ensures
            r == InGameState::Running,
    {
        InGameState::Running
    }
}

/// A direction asked for by the player, from the keyboard or the thumbstick.
#[derive(Clone, Copy, Debug, PartialEq, Eq, Structural)]
pub struct InputEvent(pub DirectionType);

/// The colour of an entity: a fully saturated hue (0 to 255 around the
/// colour wheel) or white.
#[derive(Clone, Copy, Debug, PartialEq, Eq, Structural)]
pub enum EntityColor {
    Hue(u8),
    White,
}

impl Default for EntityColor {
    fn default() -> (r: Self)
        ensures
            r == EntityColor::White,
    {
        EntityColor::White
    }
}

/// The distance between two bytes.
pub open spec fn byte_distance(a: u8, b: u8) -> int {
    if a >= b {
        a - b
    } else {
        b - a
    }
}

/// The hue an enemy gets from the byte `choice`: the byte itself, unless it
/// lies within the margin of the player's hue; then the opposite side of the
/// colour wheel (half a turn further, wrapping around).
pub open spec fn enemy_hue(choice: u8) -> u8 {
    if byte_distance(choice, PLAYER_HUE) < HUE_MARGIN {
        ((choice + 128) % 256) as u8
    } else {
        choice
    }
}

impl EntityColor {
    /// The hue an enemy gets from the byte `choice` (see `enemy_hue`).
    pub fn enemy_hue_from(choice: u8) -> (r: Self)
        ensures
            r == EntityColor::Hue(enemy_hue(choice)),
    {
        let mut choice = choice;
        let player_hue = Player::default_hue();
        let distance = if choice >= player_hue {
            choice - player_hue
        } else {
            player_hue - choice
        };
        if distance < HUE_MARGIN {
            choice = choice.wrapping_add(128);
        }
        EntityColor::Hue(choice)
    }
}

/// An enemy's hue never lies within the margin of the player's hue, so the
/// two can always be told apart.
pub proof fn lemma_enemy_hue_distinct(choice: u8)
    ensures
        byte_distance(enemy_hue(choice), PLAYER_HUE) >= HUE_MARGIN,
{
}

/// Marks the player's entity.
#[derive(Clone, Copy, Debug, PartialEq, Eq, Structural)]
pub struct Player;

impl Player {
    /// The hue of the player's colour.
    pub fn default_hue() -> (r: u8)
        ensures
            r == PLAYER_HUE,
    {
        PLAYER_HUE
    }

    /// The coordinate of the centre cell, where the player starts on both axes.
    pub fn default_position() -> (r: u8)
        ensures
            r == BOARD_SIZE / 2,
            r == 3,
    {
        BOARD_SIZE / 2
    }

    /// The player's components: its colour, its start in the centre cell and
    /// the timer that paces its moves.
    pub fn new() -> (r: (Player, EntityColor, Position, EntityTimer))
        ensures
            r.1 == EntityColor::Hue(PLAYER_HUE),
            r.2 == (Position { x: 3, y: 3 }),
            r.3.duration() == PLAYER_MOVE_SPEED_MILLIS,
            r.3.restarts() == 0,
    {
        (
            Player,
            EntityColor::Hue(Player::default_hue()),
            Position::new_square(Player::default_position()),
            EntityTimer::new(PLAYER_MOVE_SPEED_MILLIS),
        )
    }
}

/// Marks an enemy's entity.
#[derive(Clone, Copy, Debug, PartialEq, Eq, Structural)]
pub struct Enemy;

/// Counts the ticks of the death animation.
#[derive(Clone, Copy, Debug, PartialEq, Eq, Structural)]
pub struct DeathThroes(pub usize);

impl Default for DeathThroes {
    fn default() -> (r: Self)
        ensures
            r.0 == 0,
    {
        DeathThroes(0)
    }
}

impl DeathThroes {
    /// A fresh counter and the timer that paces the animation.
    pub fn new() -> (r: (DeathThroes, EntityTimer))
        ensures
            r.0.0 == 0,
            r.1.duration() == DEATH_THROWS_SPEED_MILLIS,
            r.1.restarts() == 0,
    {
        (Self::default(), EntityTimer::new(DEATH_THROWS_SPEED_MILLIS))
    }

    /// Counts one more tick; whether the animation goes on after it.
    pub fn can_update(&mut self) -> (r: bool)
        requires
            old(self).0 < usize::MAX,
        ensures
            final(self).0 == old(self).0 + 1,
            r == (final(self).0 < DEATH_THROWS_COUNT),
    {
        self.0 += 1;
        self.0 < DEATH_THROWS_COUNT
    }
}

/// The direction of the last enemy spawned.
#[derive(Clone, Copy, Debug, PartialEq, Eq, Structural)]
pub struct LastEnemyDirection(pub DirectionType);

impl Default for LastEnemyDirection {
    fn default() -> (r: Self)
        ensures
            r.0 == DirectionType::Up,
    {
        LastEnemyDirection(DirectionType::Up)
    }
}

/// Whether the board is lit in the colour of death, which flashes while the
/// player dies.
#[derive(Clone, Copy, Debug, PartialEq, Eq, Structural)]
pub struct ShowDeathThroes(bool);

impl Default for ShowDeathThroes {
    fn default() -> (r: Self)
        ensures
            !r.value(),
    {
        Self(false)
    }
}

impl ShowDeathThroes {
    /// Whether the colour of death is shown.
    pub closed spec fn value(self) -> bool {
        self.0
    }

    pub fn turn_on(&mut self)
        ensures
            final(self).value(),
    {
        self.0 = true;
    }

    pub fn reset(&mut self)
        ensures
            !final(self).value(),
    {
        self.0 = false;
    }

    pub fn toggle(&mut self)
        ensures
            final(self).value() == !old(self).value(),
    {
        self.0 = !self.0;
    }

    pub fn get_value(&self) -> (r: bool)
        ensures
            r == self.value(),
    {
        self.0
    }
}

} // verus!
