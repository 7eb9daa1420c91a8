use kg_core::direction::DirectionType::{Down, DownLeft, DownRight, Left, Right, Up, UpLeft, UpRight};
use kg_core::direction::{Direction, DirectionType};
use kg_core::{keyboard_direction, thumbstick_direction};

const ALL: [DirectionType; 8] = [
    DirectionType::Up,
    DirectionType::UpLeft,
    DirectionType::Left,
    DirectionType::DownLeft,
    DirectionType::Down,
    DirectionType::DownRight,
    DirectionType::Right,
    DirectionType::UpRight,
];

#[test]
fn opposite_directions() {
    assert_eq!(!DirectionType::Up, DirectionType::Down);
    assert_eq!(!DirectionType::UpLeft, DirectionType::DownRight);
    assert_eq!(!DirectionType::Left, DirectionType::Right);
    assert_eq!(!DirectionType::DownLeft, DirectionType::UpRight);
    assert_eq!(!DirectionType::Down, DirectionType::Up);
    assert_eq!(!DirectionType::DownRight, DirectionType::UpLeft);
    assert_eq!(!DirectionType::Right, DirectionType::Left);
    assert_eq!(!DirectionType::UpRight, DirectionType::DownLeft);
}

#[test]
fn opposite_twice_is_identity() {
    for d in ALL {
        assert_eq!(!!d, d);
        assert_eq!((!d).is_complex(), d.is_complex());
    }
}

#[test]
fn complex_directions_are_the_diagonals() {
    let complex: Vec<bool> = ALL.iter().map(|d| d.is_complex()).collect();
    assert_eq!(complex, vec![false, true, false, true, false, true, false, true]);
}

#[test]
fn default_direction_is_up() {
    assert_eq!(DirectionType::default(), DirectionType::Up);
    assert_eq!(Direction::default().0, DirectionType::Up);
}

#[test]
fn flopped_directions() {
    assert_eq!(UpLeft.choose_flopped_direction(&Up), Left);
    assert_eq!(UpLeft.choose_flopped_direction(&Left), Up);
    assert_eq!(UpLeft.choose_flopped_direction(&Down), Up);
    assert_eq!(DownLeft.choose_flopped_direction(&Down), Left);
    assert_eq!(DownLeft.choose_flopped_direction(&Right), Down);
    assert_eq!(UpRight.choose_flopped_direction(&Up), Right);
    assert_eq!(UpRight.choose_flopped_direction(&Left), Up);
    assert_eq!(DownRight.choose_flopped_direction(&Down), Right);
    assert_eq!(DownRight.choose_flopped_direction(&Up), Down);
    assert_eq!(Up.choose_flopped_direction(&Left), Down);
}

#[test]
fn flopped_direction_is_never_diagonal() {
    for d in ALL {
        for previous in ALL {
            assert!(!d.choose_flopped_direction(&previous).is_complex());
        }
    }
}

#[test]
fn player_turns_straight() {
    let mut direction = Direction::new(DirectionType::Up);
    direction.choose_next_player_direction(DirectionType::Left);
    assert_eq!(direction.0, DirectionType::Left);
    direction.choose_next_player_direction(DirectionType::UpLeft);
    assert_eq!(direction.0, DirectionType::Up);
    direction.choose_next_player_direction(DirectionType::UpLeft);
    assert_eq!(direction.0, DirectionType::Left);
    direction.choose_next_player_direction(DirectionType::DownRight);
    assert_eq!(direction.0, DirectionType::Down);
    direction.choose_next_player_direction(DirectionType::DownRight);
    assert_eq!(direction.0, DirectionType::Right);
}

#[test]
fn player_never_follows_a_diagonal() {
    for start in ALL {
        for input in ALL {
            let mut direction = Direction::new(start);
            direction.choose_next_player_direction(input);
            assert!(!direction.0.is_complex());
        }
    }
}

#[test]
fn keyboard_combinations() {
    assert_eq!(keyboard_direction(false, false, false, false), None);
    assert_eq!(keyboard_direction(true, false, false, false), Some(Up));
    assert_eq!(keyboard_direction(false, true, false, false), Some(Down));
    assert_eq!(keyboard_direction(false, false, true, false), Some(Left));
    assert_eq!(keyboard_direction(false, false, false, true), Some(Right));
    assert_eq!(keyboard_direction(true, false, true, false), Some(UpLeft));
    assert_eq!(keyboard_direction(true, false, false, true), Some(UpRight));
    assert_eq!(keyboard_direction(false, true, true, false), Some(DownLeft));
    assert_eq!(keyboard_direction(false, true, false, true), Some(DownRight));
    // up wins over down, left over right
    assert_eq!(keyboard_direction(true, true, false, false), Some(Up));
    assert_eq!(keyboard_direction(false, false, true, true), Some(Left));
    assert_eq!(keyboard_direction(true, true, true, true), Some(UpLeft));
}

#[test]
fn keyboard_reads_something_iff_pressed() {
    for bits in 0u8..16 {
        let (u, d, l, r) = (bits & 1 != 0, bits & 2 != 0, bits & 4 != 0, bits & 8 != 0);
        assert_eq!(keyboard_direction(u, d, l, r).is_some(), u || d || l || r);
    }
}

#[test]
fn thumbstick_readings() {
    assert_eq!(thumbstick_direction(512, 512), None);
    assert_eq!(thumbstick_direction(256, 767), None);
    assert_eq!(thumbstick_direction(255, 512), Some(Up));
    assert_eq!(thumbstick_direction(768, 512), Some(Down));
    assert_eq!(thumbstick_direction(512, 0), Some(Left));
    assert_eq!(thumbstick_direction(512, 1023), Some(Right));
    assert_eq!(thumbstick_direction(0, 0), Some(UpLeft));
    assert_eq!(thumbstick_direction(0, 1023), Some(UpRight));
    assert_eq!(thumbstick_direction(1023, 0), Some(DownLeft));
    assert_eq!(thumbstick_direction(1023, 1023), Some(DownRight));
}

#[test]
fn thumbstick_agrees_with_keys() {
    let readings = [0u16, 100, 255, 256, 500, 767, 768, 1000, 4095, u16::MAX];
    for vrx in readings {
        for vry in readings {
            assert_eq!(
                thumbstick_direction(vrx, vry),
                keyboard_direction(vrx < 256, vrx >= 768, vry < 256, vry >= 768)
            );
        }
    }
}
