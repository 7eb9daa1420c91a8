use rand::rngs::SmallRng;
use vstd::prelude::*;

use crate::direction::{is_diagonal, Direction, DirectionType};
use crate::entities::{
    byte_distance, enemy_hue, Enemy, EntityColor, ENEMY_MOVE_SPEED_MILLIS, HUE_MARGIN, PLAYER_HUE,
};
use crate::position::{enemy_entry, Position, BOARD_SIZE};
use crate::rng::{random_range_u8, random_u8};
use crate::timer::EntityTimer;

verus! {

/// The straight direction numbered `i`: up, left, down, then right for
/// every larger number.
pub open spec fn straight_direction(i: u8) -> DirectionType {
    if i == 0 {
        DirectionType::Up
    } else if i == 1 {
        DirectionType::Left
    } else if i == 2 {
        DirectionType::Down
    } else {
        DirectionType::Right
    }
}

/// Whether `d` is a direction that `DirectionType::choose_simple_random` gave
/// when it drew from `rng` (the draw's rng, before and after it).
#[verifier::inline]
pub open spec fn draws_direction(rng: &mut SmallRng, d: DirectionType) -> bool {
    call_ensures(DirectionType::choose_simple_random, (rng,), d)
}

impl DirectionType {
    /// The straight direction numbered `i` (see `straight_direction`).
    pub fn from_straight_index(i: u8) -> (r: Self)
        ensures
            r == straight_direction(i),
            !is_diagonal(r),
    {
        match i {
            0 => DirectionType::Up,
            1 => DirectionType::Left,
            2 => DirectionType::Down,
            _ => DirectionType::Right,
        }
    }

    /// One of the four straight directions, drawn at random.
    pub fn choose_simple_random(rng: &mut SmallRng) -> (r: Self)
        ensures
            exists|i: u8| i < 4 && r == straight_direction(i),
            !is_diagonal(r),
    {
        let i = random_range_u8(rng, 0, 4);
        let r = Self::from_straight_index(i);
        assert(i < 4 && r == straight_direction(i));
        r
    }

    /// What becomes of a first drawn direction `first` when the last enemy
    /// went in direction `last`: it is kept when it differs, otherwise a
    /// second draw is needed (`None`).
    pub fn resolve_new_direction(first: DirectionType, last: DirectionType) -> (r: Option<DirectionType>)
        ensures
            r == (if first != last { Some(first) } else { None::<DirectionType> }),
    {
        if first != last {
            Some(first)
        } else {
            None
        }
    }

    /// A random straight direction, drawn a second time when the first draw
    /// repeats `last`. What each draw gives is chance; the contract states
    /// which draws are made and which one is kept: the first draw, from `rng`
    /// as it was, when it differs from `last`, and otherwise a second draw,
    /// from `rng` as the first left it.
    pub fn choose_new_random(rng: &mut SmallRng, last: &Self) -> (r: Self)
        ensures
            !is_diagonal(r),
            exists|first: &mut SmallRng, d1: DirectionType| {
                &&& *first == *old(rng)
                &&& #[trigger] draws_direction(first, d1)
                &&& d1 != *last ==> r == d1 && *final(rng) == *final(first)
                &&& d1 == *last ==> exists|second: &mut SmallRng| {
                    &&& *second == *final(first)
                    &&& #[trigger] draws_direction(second, r)
                    &&& *final(rng) == *final(second)
                }
            },
    {
        let choice = Self::choose_simple_random(rng);
        match Self::resolve_new_direction(choice, *last) {
            Some(kept) => kept,
            None => Self::choose_simple_random(rng),
        }
    }
}

impl EntityColor {
    /// A random hue for an enemy, never within the margin of the player's hue.
    pub fn random_enemy_hue(rng: &mut SmallRng) -> (r: Self)
        ensures
            exists|choice: u8| r == EntityColor::Hue(enemy_hue(choice)),
            r matches EntityColor::Hue(h) && byte_distance(h, PLAYER_HUE) >= HUE_MARGIN,
    {
        let choice = random_u8(rng);
        let r = EntityColor::enemy_hue_from(choice);
        assert(r == EntityColor::Hue(enemy_hue(choice)));
        r
    }
}

impl Enemy {
    /// A new enemy's components. Its direction is a random straight one,
    /// drawn again once if it repeats `last_enemy_direction`, which then
    /// records it (the draws are those of `choose_new_random`, made first);
    /// it enters the board from the edge it moves away from.
    pub fn new(rng: &mut SmallRng, last_enemy_direction: &mut DirectionType) -> (r: (
        Enemy,
        EntityColor,
        Position,
        EntityTimer,
        Direction,
    ))
        ensures
            *final(last_enemy_direction) == r.4.0,
            !is_diagonal(r.4.0),
            exists|first: &mut SmallRng, d1: DirectionType| {
                &&& *first == *old(rng)
                &&& #[trigger] draws_direction(first, d1)
                &&& d1 != *old(last_enemy_direction) ==> r.4.0 == d1
                &&& d1 == *old(last_enemy_direction) ==> exists|second: &mut SmallRng| *second == *final(first) && #[trigger] draws_direction(second, r.4.0)
            },
            exists|choice: u8| r.1 == EntityColor::Hue(enemy_hue(choice)),
            exists|cell: u8| cell < BOARD_SIZE && r.2 == enemy_entry(r.4.0, cell),
            r.3.duration() == ENEMY_MOVE_SPEED_MILLIS,
            r.3.restarts() == 0,
    {
        let direction = DirectionType::choose_new_random(rng, last_enemy_direction);
        *last_enemy_direction = direction;
        (
            Enemy,
            EntityColor::random_enemy_hue(rng),
            Position::random_enemy_position(direction, rng),
            EntityTimer::new(ENEMY_MOVE_SPEED_MILLIS),
            Direction::new(direction),
        )
    }
}

} // verus!
