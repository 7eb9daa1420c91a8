use vstd::prelude::*;

use crate::direction::DirectionType;

verus! {

/// The direction made of an optional vertical part and an optional
/// horizontal part: the diagonal between them when both are there, the one
/// that is there otherwise.
pub open spec fn combined(vertical: Option<DirectionType>, horizontal: Option<DirectionType>) -> Option<DirectionType> {
    match (vertical, horizontal) {
        (Some(DirectionType::Up), Some(DirectionType::Left)) => Some(DirectionType::UpLeft),
        (Some(DirectionType::Up), Some(DirectionType::Right)) => Some(DirectionType::UpRight),
        (Some(DirectionType::Down), Some(DirectionType::Left)) => Some(DirectionType::DownLeft),
        (Some(DirectionType::Down), Some(DirectionType::Right)) => Some(DirectionType::DownRight),
        (Some(v), _) => Some(v),
        (None, h) => h,
    }
}

/// The one of two opposite buttons that counts: the first when it is held,
/// else the second when it is held.
pub open spec fn winning_button(first: bool, first_direction: DirectionType, second: bool, second_direction: DirectionType) -> Option<DirectionType> {
    if first {
        Some(first_direction)
    } else if second {
        Some(second_direction)
    } else {
        None
    }
}

/// The direction asked for by four direction buttons (or arrow keys) held at
/// once: up beats down, left beats right, and a part from each axis combines
/// into a diagonal.
pub open spec fn buttons_direction(up: bool, down: bool, left: bool, right: bool) -> Option<DirectionType> {
    combined(
        winning_button(up, DirectionType::Up, down, DirectionType::Down),
        winning_button(left, DirectionType::Left, right, DirectionType::Right),
    )
}

/// Reads the four arrow keys (up, down, left, right) into an input direction.
pub fn keyboard_direction(up: bool, down: bool, left: bool, right: bool) -> (r: Option<DirectionType>)
    ensures
        r == buttons_direction(up, down, left, right),
{
    match (up, down, left, right) {
        (true, _, true, _) => Some(DirectionType::UpLeft),
        (true, _, _, true) => Some(DirectionType::UpRight),
        (true, _, _, _) => Some(DirectionType::Up),
        (_, true, true, _) => Some(DirectionType::DownLeft),
        (_, true, _, true) => Some(DirectionType::DownRight),
        (_, true, _, _) => Some(DirectionType::Down),
        (_, _, true, _) => Some(DirectionType::Left),
        (_, _, _, true) => Some(DirectionType::Right),
        _ => None,
    }
}

/// A thumbstick axis reading below this counts as pushed towards the low end.
pub const THUMBSTICK_LOW: u16 = 256;

/// A thumbstick axis reading at or above this counts as pushed towards the high end.
pub const THUMBSTICK_HIGH: u16 = 768;

/// Where one thumbstick axis is pushed: `Some(false)` to the low end,
/// `Some(true)` to the high end, `None` when it rests in the middle half.
pub open spec fn axis_push(reading: u16) -> Option<bool> {
    if reading < THUMBSTICK_LOW {
        Some(false)
    } else if reading >= THUMBSTICK_HIGH {
        Some(true)
    } else {
        None
    }
}

/// The direction a thumbstick asks for. The stick is mounted so that the
/// low end of its x axis points up and the low end of its y axis points
/// left; a push along each axis gives one part, and the parts combine.
pub open spec fn stick_direction(vrx: u16, vry: u16) -> Option<DirectionType> {
    combined(
        match axis_push(vrx) {
            Some(false) => Some(DirectionType::Up),
            Some(true) => Some(DirectionType::Down),
            None => None,
        },
        match axis_push(vry) {
            Some(false) => Some(DirectionType::Left),
            Some(true) => Some(DirectionType::Right),
            None => None,
        },
    )
}

/// Turns the two axis readings of the thumbstick (x, then y) into an input
/// direction; more than a quarter of the way to either end counts as a push.
pub fn thumbstick_direction(vrx: u16, vry: u16) -> (r: Option<DirectionType>)
    ensures
        r == stick_direction(vrx, vry),
{
    let x_direction = if vrx < THUMBSTICK_LOW {
        Some(false)
    } else if vrx >= THUMBSTICK_HIGH {
        Some(true)
    } else {
        None
    };
    let y_direction = if vry < THUMBSTICK_LOW {
        Some(false)
    } else if vry >= THUMBSTICK_HIGH {
        Some(true)
    } else {
        None
    };
    match (x_direction, y_direction) {
        (Some(false), Some(false)) => Some(DirectionType::UpLeft),
        (Some(false), Some(true)) => Some(DirectionType::UpRight),
        (Some(false), _) => Some(DirectionType::Up),
        (Some(true), Some(false)) => Some(DirectionType::DownLeft),
        (Some(true), Some(true)) => Some(DirectionType::DownRight),
        (Some(true), _) => Some(DirectionType::Down),
        (_, Some(false)) => Some(DirectionType::Left),
        (_, Some(true)) => Some(DirectionType::Right),
        _ => None,
    }
}

/// The thumbstick and the arrow keys agree: pushing the x axis low is the up
/// key, high the down key, pushing the y axis low the left key, high the right key.
pub proof fn lemma_thumbstick_matches_keys(vrx: u16, vry: u16)
    ensures
        stick_direction(vrx, vry) == buttons_direction(
            vrx < THUMBSTICK_LOW,
            vrx >= THUMBSTICK_HIGH,
            vry < THUMBSTICK_LOW,
            vry >= THUMBSTICK_HIGH,
        ),
{
}

/// No input is read when nothing is pressed, and some input is read whenever
/// any key is pressed.
pub proof fn lemma_buttons_some_iff_pressed(up: bool, down: bool, left: bool, right: bool)
    ensures
        buttons_direction(up, down, left, right) is Some <==> (up || down || left || right),
{
}

} // verus!
