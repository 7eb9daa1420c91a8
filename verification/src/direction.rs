use core::ops::Not;
use vstd::prelude::*;

verus! {

/// One of the eight directions in which something moves on the board.
/// `Up` is the direction in which `y` grows, `Right` the one in which `x` grows.
#[derive(Clone, Copy, Debug, PartialEq, Eq, Structural)]
pub enum DirectionType {
    Up,
    UpLeft,
    Left,
    DownLeft,
    Down,
    DownRight,
    Right,
    UpRight,
}

/// The direction that points the other way.
pub open spec fn opposite(d: DirectionType) -> DirectionType {
    match d {
        DirectionType::Up => DirectionType::Down,
        DirectionType::UpLeft => DirectionType::DownRight,
        DirectionType::Left => DirectionType::Right,
        DirectionType::DownLeft => DirectionType::UpRight,
        DirectionType::Down => DirectionType::Up,
        DirectionType::DownRight => DirectionType::UpLeft,
        DirectionType::Right => DirectionType::Left,
        DirectionType::UpRight => DirectionType::DownLeft,
    }
}

/// A diagonal direction, one that moves along both axes at once.
pub open spec fn is_diagonal(d: DirectionType) -> bool {
    match d {
        DirectionType::Up | DirectionType::Left | DirectionType::Down | DirectionType::Right => false,
        _ => true,
    }
}

/// The vertical part of a direction: up for the three that go up, down for
/// the three that go down, none for left and right.
pub open spec fn vertical_part(d: DirectionType) -> Option<DirectionType> {
    if d == DirectionType::Up || d == DirectionType::UpLeft || d == DirectionType::UpRight {
        Some(DirectionType::Up)
    } else if d == DirectionType::Down || d == DirectionType::DownLeft || d == DirectionType::DownRight {
        Some(DirectionType::Down)
    } else {
        None
    }
}

/// The horizontal part of a direction: left for the three that go left,
/// right for the three that go right, none for up and down.
pub open spec fn horizontal_part(d: DirectionType) -> Option<DirectionType> {
    if d == DirectionType::Left || d == DirectionType::UpLeft || d == DirectionType::DownLeft {
        Some(DirectionType::Left)
    } else if d == DirectionType::Right || d == DirectionType::UpRight || d == DirectionType::DownRight {
        Some(DirectionType::Right)
    } else {
        None
    }
}

/// Which straight direction a diagonal input `d` becomes, given the direction
/// `previous` followed until now: its vertical part, unless that is what was
/// followed already; then its horizontal part. A straight input gives down.
pub open spec fn flopped_direction(d: DirectionType, previous: DirectionType) -> DirectionType {
    if !is_diagonal(d) {
        DirectionType::Down
    } else if vertical_part(d) == Some(previous) {
        horizontal_part(d)->0
    } else {
        vertical_part(d)->0
    }
}

impl Default for DirectionType {
    fn default() -> (r: Self)
        ensures
            r == DirectionType::Up,
    {
        DirectionType::Up
    }
}

impl Not for DirectionType {
    type Output = DirectionType;

    fn not(self) -> (r: DirectionType) {
        match self {
            DirectionType::Up => DirectionType::Down,
            DirectionType::UpLeft => DirectionType::DownRight,
            DirectionType::Left => DirectionType::Right,
            DirectionType::DownLeft => DirectionType::UpRight,
            DirectionType::Down => DirectionType::Up,
            DirectionType::DownRight => DirectionType::UpLeft,
            DirectionType::Right => DirectionType::Left,
            DirectionType::UpRight => DirectionType::DownLeft,
        }
    }
}

impl vstd::std_specs::ops::NotSpecImpl for DirectionType {
    open spec fn obeys_not_spec() -> bool {
        true
    }

    open spec fn not_req(self) -> bool {
        true
    }

    open spec fn not_spec(self) -> DirectionType {
        opposite(self)
    }
}

impl DirectionType {
    /// Whether the direction is a diagonal one.
    pub fn is_complex(&self) -> (r: bool)
        ensures
            r == is_diagonal(*self),
    {
        match self {
            DirectionType::Up | DirectionType::Left | DirectionType::Down | DirectionType::Right => false,
            _ => true,
        }
    }

    /// The straight direction that a diagonal input `self` becomes when
    /// `other` was followed until now (see `flopped_direction`).
    pub fn choose_flopped_direction(&self, other: &Self) -> (r: Self)
        ensures
            r == flopped_direction(*self, *other),
            !is_diagonal(r),
            !is_diagonal(*self) ==> r == DirectionType::Down,
            is_diagonal(*self) ==> Some(r) == vertical_part(*self) || Some(r) == horizontal_part(*self),
            is_diagonal(*self) && vertical_part(*self) != Some(*other) ==> Some(r) == vertical_part(*self),
            is_diagonal(*self) ==> flopped_direction(*self, r) != r,
    {
        match (self, other) {
            (DirectionType::UpLeft, DirectionType::Up) | (DirectionType::DownLeft, DirectionType::Down) => DirectionType::Left,
            (DirectionType::UpLeft, _) => DirectionType::Up,
            (DirectionType::DownLeft, _) => DirectionType::Down,
            (DirectionType::UpRight, DirectionType::Up) | (DirectionType::DownRight, DirectionType::Down) => DirectionType::Right,
            (DirectionType::UpRight, _) => DirectionType::Up,
            _ => DirectionType::Down,
        }
    }
}

/// A diagonal input becomes one of its two straight parts: its vertical part
/// whenever that is not the direction followed until now, and the other part
/// otherwise. So holding the same diagonal alternates between the two parts,
/// and the player zigzags along the diagonal.
pub proof fn lemma_flopped_alternates(d: DirectionType, previous: DirectionType)
    requires
        is_diagonal(d),
    ensures
        ({
            let f = flopped_direction(d, previous);
            &&& !is_diagonal(f)
            &&& Some(f) == vertical_part(d) || Some(f) == horizontal_part(d)
            &&& vertical_part(d) != Some(previous) ==> Some(f) == vertical_part(d)
            &&& flopped_direction(d, f) != f
            &&& flopped_direction(d, flopped_direction(d, f)) == f
        }),
{
}

/// Pointing the other way twice gives back the direction one started with.
pub proof fn lemma_opposite_involutive(d: DirectionType)
    ensures
        opposite(opposite(d)) == d,
        is_diagonal(opposite(d)) == is_diagonal(d),
{
}

/// The direction in which an entity moves.
#[derive(Clone, Copy, Debug, PartialEq, Eq, Structural)]
pub struct Direction(pub DirectionType);

/// The direction the player follows after the input `input`, when it
/// followed `current` until now.
pub open spec fn next_player_direction(current: DirectionType, input: DirectionType) -> DirectionType {
    if !is_diagonal(input) {
        input
    } else {
        flopped_direction(input, current)
    }
}

impl Default for Direction {
    fn default() -> (r: Self)
        ensures
            r.0 == DirectionType::Up,
    {
        Direction(DirectionType::Up)
    }
}

impl Direction {
    pub fn new(direction: DirectionType) -> (r: Self)
        ensures
            r.0 == direction,
    {
        Direction(direction)
    }

    /// Turns the player to the input `direction`; a diagonal input is
    /// turned into a straight one, so the player only ever moves straight.
    pub fn choose_next_player_direction(&mut self, direction: DirectionType)
        ensures
            final(self).0 == next_player_direction(old(self).0, direction),
            !is_diagonal(final(self).0),
    {
        if !direction.is_complex() {
            self.0 = direction;
            return;
        }
        self.0 = direction.choose_flopped_direction(&self.0);
    }
}

} // verus!
