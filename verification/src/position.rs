use vstd::prelude::*;

use crate::direction::{is_diagonal, opposite, DirectionType};
use crate::rng::random_range_u8;
use rand::rngs::SmallRng;

verus! {

/// Number of cells along each side of the square board.
pub const BOARD_SIZE: u8 = 7;

/// A cell of the board; `(0, 0)` is the bottom-left corner. Enemies enter
/// from one cell outside the board, so a coordinate may be `BOARD_SIZE`.
#[derive(Clone, Copy, Debug, PartialEq, Eq, Structural)]
pub struct Position {
    pub x: u8,
    pub y: u8,
}

/// One step towards the top or right edge, stopping at the last cell.
pub open spec fn step_up(v: u8) -> u8 {
    if v + 1 < BOARD_SIZE - 1 {
        (v + 1) as u8
    } else {
        (BOARD_SIZE - 1) as u8
    }
}

/// One step towards the bottom or left edge, stopping at zero.
pub open spec fn step_down(v: u8) -> u8 {
    if v == 0 {
        0
    } else {
        (v - 1) as u8
    }
}

/// Whether a direction moves along the y axis towards the top.
pub open spec fn moves_up(d: DirectionType) -> bool {
    d == DirectionType::Up || d == DirectionType::UpLeft || d == DirectionType::UpRight
}

/// Whether a direction moves along the y axis towards the bottom.
pub open spec fn moves_down(d: DirectionType) -> bool {
    d == DirectionType::Down || d == DirectionType::DownLeft || d == DirectionType::DownRight
}

/// Whether a direction moves along the x axis towards the right.
pub open spec fn moves_right(d: DirectionType) -> bool {
    d == DirectionType::Right || d == DirectionType::UpRight || d == DirectionType::DownRight
}

/// Whether a direction moves along the x axis towards the left.
pub open spec fn moves_left(d: DirectionType) -> bool {
    d == DirectionType::Left || d == DirectionType::UpLeft || d == DirectionType::DownLeft
}

/// The cell reached from `p` by one step in direction `d`; each coordinate
/// stays between zero and the last cell of the board.
pub open spec fn moved(p: Position, d: DirectionType) -> Position {
    Position {
        x: if moves_right(d) {
            step_up(p.x)
        } else if moves_left(d) {
            step_down(p.x)
        } else {
            p.x
        },
        y: if moves_up(d) {
            step_up(p.y)
        } else if moves_down(d) {
            step_down(p.y)
        } else {
            p.y
        },
    }
}

/// Whether a step in the given direction stays clear of the board's edge.
/// A diagonal direction is judged as a step to the right.
pub open spec fn may_move(p: Position, d: DirectionType) -> bool {
    match d {
        DirectionType::Up => p.y < BOARD_SIZE - 1,
        DirectionType::Left => p.x > 0,
        DirectionType::Down => p.y > 0,
        _ => p.x < BOARD_SIZE - 1,
    }
}

/// Whether a cell lies off the board.
pub open spec fn off_board(p: Position) -> bool {
    p.x >= BOARD_SIZE || p.y >= BOARD_SIZE
}

/// The cell where an enemy that moves in direction `d` enters the board,
/// `cell` giving its place along the edge it enters from.
pub open spec fn enemy_entry(d: DirectionType, cell: u8) -> Position {
    match d {
        DirectionType::Up => Position { x: cell, y: 0 },
        DirectionType::Left => Position { x: BOARD_SIZE, y: cell },
        DirectionType::Down => Position { x: cell, y: BOARD_SIZE },
        _ => Position { x: 0, y: cell },
    }
}

impl Default for Position {
    fn default() -> (r: Self)
        ensures
            r == (Position { x: 0, y: 0 }),
    {
        Position { x: 0, y: 0 }
    }
}

impl Position {
    pub fn new(x: u8, y: u8) -> (r: Self)
        ensures
            r == (Position { x, y }),
    {
        Position { x, y }
    }

    /// The cell on the diagonal at `pos`: both coordinates equal `pos`.
    pub fn new_square(pos: u8) -> (r: Self)
        ensures
            r == (Position { x: pos, y: pos }),
    {
        let mut position = Self::default();
        position.update_square(pos);
        position
    }

    /// Moves to the cell on the diagonal at `position`.
    pub fn update_square(&mut self, position: u8)
        ensures
            *final(self) == (Position { x: position, y: position }),
    {
        self.x = position;
        self.y = position;
    }

    /// Whether a step in `direction` keeps clear of the board's edge: on the
    /// board, a straight step is allowed exactly when it leads to another cell.
    pub fn can_move(&self, direction: &DirectionType) -> (r: bool)
        ensures
            r == may_move(*self, *direction),
            !off_board(*self) && !is_diagonal(*direction) ==> (r <==> moved(*self, *direction) != *self),
    {
        match direction {
            DirectionType::Up => self.y < BOARD_SIZE - 1,
            DirectionType::Left => self.x > 0,
            DirectionType::Down => self.y > 0,
            _ => self.x < BOARD_SIZE - 1,
        }
    }

    /// Takes one step in `direction`, never past the last cell of the board
    /// nor below zero.
    pub fn update_with_direction(&mut self, direction: DirectionType)
        requires
            moves_up(direction) ==> old(self).y < u8::MAX,
            moves_right(direction) ==> old(self).x < u8::MAX,
        ensures
            *final(self) == moved(*old(self), direction),
    {
        match direction {
            DirectionType::Up => {
                self.y = Self::step_towards_end(self.y);
            },
            DirectionType::UpLeft => {
                self.x = self.x.saturating_sub(1);
                self.y = Self::step_towards_end(self.y);
            },
            DirectionType::Left => {
                self.x = self.x.saturating_sub(1);
            },
            DirectionType::DownLeft => {
                self.x = self.x.saturating_sub(1);
                self.y = self.y.saturating_sub(1);
            },
            DirectionType::Down => {
                self.y = self.y.saturating_sub(1);
            },
            DirectionType::DownRight => {
                self.x = Self::step_towards_end(self.x);
                self.y = self.y.saturating_sub(1);
            },
            DirectionType::Right => {
                self.x = Self::step_towards_end(self.x);
            },
            DirectionType::UpRight => {
                self.x = Self::step_towards_end(self.x);
                self.y = Self::step_towards_end(self.y);
            },
        }
    }

    /// `(v + 1).min(BOARD_SIZE - 1)`.
    fn step_towards_end(v: u8) -> (r: u8)
        requires
            v < u8::MAX,
        ensures
            r == step_up(v),
    {
        let next = v + 1;
        if next < BOARD_SIZE - 1 {
            next
        } else {
            BOARD_SIZE - 1
        }
    }

    /// Whether both positions name the same cell.
    pub fn eq(&self, other: &Self) -> (r: bool)
        ensures
            r == (*self == *other),
    {
        self.x == other.x && self.y == other.y
    }

    /// Whether the position lies off the board.
    pub fn out_of_bounds(&self) -> (r: bool)
        ensures
            r == off_board(*self),
    {
        self.x >= BOARD_SIZE || self.y >= BOARD_SIZE
    }

    /// The entry cell of an enemy moving in `direction`, at place `cell`
    /// along the edge it enters from (see `enemy_entry`).
    pub fn enemy_position(direction: DirectionType, cell: u8) -> (r: Self)
        ensures
            r == enemy_entry(direction, cell),
    {
        match direction {
            DirectionType::Up => Position::new(cell, 0),
            DirectionType::Left => Position::new(BOARD_SIZE, cell),
            DirectionType::Down => Position::new(cell, BOARD_SIZE),
            _ => Position::new(0, cell),
        }
    }

    /// A random entry cell for an enemy moving in `direction`: the place
    /// along the edge is drawn from the board's cells.
    pub fn random_enemy_position(direction: DirectionType, rng: &mut SmallRng) -> (r: Self)
        ensures
            exists|cell: u8| cell < BOARD_SIZE && r == enemy_entry(direction, cell),
    {
        let random_cell = random_range_u8(rng, 0, BOARD_SIZE);
        let r = Self::enemy_position(direction, random_cell);
        assert(random_cell < BOARD_SIZE && r == enemy_entry(direction, random_cell));
        r
    }
}

/// A step from a cell on the board, or one cell off it as enemies enter,
/// ends on the board along each axis it moves.
pub proof fn lemma_moved_stays_on_board(p: Position, d: DirectionType)
    requires
        p.x <= BOARD_SIZE,
        p.y <= BOARD_SIZE,
    ensures
        (moves_right(d) || moves_left(d)) ==> moved(p, d).x < BOARD_SIZE,
        (moves_up(d) || moves_down(d)) ==> moved(p, d).y < BOARD_SIZE,
        !off_board(p) ==> !off_board(moved(p, d)),
{
}

/// A step that did not run into the edge is undone by a step the other way:
/// this is how a move into an occupied cell is taken back.
pub proof fn lemma_step_back_undoes(p: Position, d: DirectionType)
    requires
        !off_board(p),
        !off_board(moved(p, d)),
        moves_up(d) || moves_down(d) ==> moved(p, d).y != p.y,
        moves_left(d) || moves_right(d) ==> moved(p, d).x != p.x,
    ensures
        moved(moved(p, d), opposite(d)) == p,
{
}

/// A straight step that `may_move` allows changes the position, so it can be
/// taken back by a step the other way.
pub proof fn lemma_allowed_straight_step_undone(p: Position, d: DirectionType)
    requires
        !off_board(p),
        !is_diagonal(d),
        may_move(p, d),
    ensures
        moved(p, d) != p,
        moved(moved(p, d), opposite(d)) == p,
{
}

/// On the board, a straight step is allowed exactly when it changes the
/// cell: it is refused only at the edge it heads for, so an entity in any
/// column but the first may step left, in any row but the first may step
/// down, and so on.
pub proof fn lemma_straight_step_allowed_iff_moves(p: Position, d: DirectionType)
    requires
        !off_board(p),
        !is_diagonal(d),
    ensures
        may_move(p, d) <==> moved(p, d) != p,
{
}

/// Every direction lets an enemy leave its entry cell at least once.
pub proof fn lemma_enemy_entry_can_move(d: DirectionType, cell: u8)
    requires
        cell < BOARD_SIZE,
    ensures
        may_move(enemy_entry(d, cell), d),
{
}

} // verus!
