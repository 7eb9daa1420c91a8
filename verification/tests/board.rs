use kg_core::direction::DirectionType;
use kg_core::entities::{EntityColor, Player, ShowDeathThroes, DeathThroes};
use kg_core::{Position, BOARD_SIZE};
use rand::rngs::SmallRng;
use rand::SeedableRng;

const ALL: [DirectionType; 8] = [
    DirectionType::Up,
    DirectionType::UpLeft,
    DirectionType::Left,
    DirectionType::DownLeft,
    DirectionType::Down,
    DirectionType::DownRight,
    DirectionType::Right,
    DirectionType::UpRight,
];

fn step(x: u8, y: u8, d: DirectionType) -> (u8, u8) {
    let mut p = Position::new(x, y);
    p.update_with_direction(d);
    (p.x, p.y)
}

#[test]
fn positions_are_built() {
    assert_eq!(Position::new(2, 5), Position { x: 2, y: 5 });
    assert_eq!(Position::new_square(4), Position { x: 4, y: 4 });
    assert_eq!(Position::default(), Position { x: 0, y: 0 });
    let mut p = Position::new(1, 6);
    p.update_square(3);
    assert_eq!(p, Position { x: 3, y: 3 });
}

#[test]
fn steps_in_each_direction() {
    assert_eq!(step(3, 3, DirectionType::Up), (3, 4));
    assert_eq!(step(3, 3, DirectionType::UpLeft), (2, 4));
    assert_eq!(step(3, 3, DirectionType::Left), (2, 3));
    assert_eq!(step(3, 3, DirectionType::DownLeft), (2, 2));
    assert_eq!(step(3, 3, DirectionType::Down), (3, 2));
    assert_eq!(step(3, 3, DirectionType::DownRight), (4, 2));
    assert_eq!(step(3, 3, DirectionType::Right), (4, 3));
    assert_eq!(step(3, 3, DirectionType::UpRight), (4, 4));
}

#[test]
fn steps_stop_at_the_edges() {
    assert_eq!(step(6, 6, DirectionType::UpRight), (6, 6));
    assert_eq!(step(0, 0, DirectionType::DownLeft), (0, 0));
    assert_eq!(step(0, 6, DirectionType::UpLeft), (0, 6));
    assert_eq!(step(7, 2, DirectionType::Left), (6, 2));
    assert_eq!(step(2, 7, DirectionType::Down), (2, 6));
    assert_eq!(step(7, 7, DirectionType::Up), (7, 6));
    assert_eq!(step(200, 3, DirectionType::Right), (6, 3));
}

#[test]
fn steps_from_the_board_stay_on_it() {
    for x in 0..=BOARD_SIZE {
        for y in 0..=BOARD_SIZE {
            for d in ALL {
                let (nx, ny) = step(x, y, d);
                if x < BOARD_SIZE && y < BOARD_SIZE {
                    assert!(nx < BOARD_SIZE && ny < BOARD_SIZE);
                }
            }
        }
    }
}

#[test]
fn unclamped_step_is_undone_by_the_opposite() {
    for x in 0..BOARD_SIZE {
        for y in 0..BOARD_SIZE {
            for d in ALL {
                let mut p = Position::new(x, y);
                if !d.is_complex() && p.can_move(&d) {
                    p.update_with_direction(d);
                    assert_ne!(p, Position::new(x, y));
                    p.update_with_direction(!d);
                    assert_eq!(p, Position::new(x, y));
                }
            }
        }
    }
}

#[test]
fn can_move_checks_the_edge() {
    let corner = Position::new(0, 0);
    assert!(corner.can_move(&DirectionType::Up));
    assert!(!corner.can_move(&DirectionType::Left));
    assert!(!corner.can_move(&DirectionType::Down));
    assert!(corner.can_move(&DirectionType::Right));
    let top_right = Position::new(6, 6);
    assert!(!top_right.can_move(&DirectionType::Up));
    assert!(!top_right.can_move(&DirectionType::Right));
    // a diagonal is judged as a step to the right
    assert!(!top_right.can_move(&DirectionType::DownRight));
    assert!(Position::new(5, 6).can_move(&DirectionType::UpRight));
}

#[test]
fn positions_compare_and_bound() {
    assert!(Position::new(1, 2).eq(&Position::new(1, 2)));
    assert!(!Position::new(1, 2).eq(&Position::new(2, 1)));
    assert!(!Position::new(6, 6).out_of_bounds());
    assert!(Position::new(7, 0).out_of_bounds());
    assert!(Position::new(0, 7).out_of_bounds());
}

#[test]
fn enemy_entry_cells() {
    assert_eq!(Position::enemy_position(DirectionType::Up, 4), Position::new(4, 0));
    assert_eq!(Position::enemy_position(DirectionType::Left, 4), Position::new(7, 4));
    assert_eq!(Position::enemy_position(DirectionType::Down, 4), Position::new(4, 7));
    assert_eq!(Position::enemy_position(DirectionType::Right, 4), Position::new(0, 4));
    assert_eq!(Position::enemy_position(DirectionType::UpRight, 4), Position::new(0, 4));
}

#[test]
fn enemies_can_leave_their_entry_cell() {
    for d in ALL {
        for cell in 0..BOARD_SIZE {
            assert!(Position::enemy_position(d, cell).can_move(&d));
        }
    }
}

#[test]
fn random_entry_cells_lie_on_the_entry_edge() {
    let mut rng = SmallRng::seed_from_u64(7);
    for _ in 0..200 {
        let p = Position::random_enemy_position(DirectionType::Left, &mut rng);
        assert_eq!(p.x, BOARD_SIZE);
        assert!(p.y < BOARD_SIZE);
        let p = Position::random_enemy_position(DirectionType::Up, &mut rng);
        assert_eq!(p.y, 0);
        assert!(p.x < BOARD_SIZE);
    }
}

#[test]
fn enemy_hues() {
    assert_eq!(EntityColor::enemy_hue_from(0), EntityColor::Hue(0));
    assert_eq!(EntityColor::enemy_hue_from(80), EntityColor::Hue(80));
    assert_eq!(EntityColor::enemy_hue_from(81), EntityColor::Hue(209));
    assert_eq!(EntityColor::enemy_hue_from(85), EntityColor::Hue(213));
    assert_eq!(EntityColor::enemy_hue_from(89), EntityColor::Hue(217));
    assert_eq!(EntityColor::enemy_hue_from(90), EntityColor::Hue(90));
    assert_eq!(EntityColor::enemy_hue_from(255), EntityColor::Hue(255));
}

#[test]
fn enemy_hues_keep_away_from_the_player() {
    for choice in 0..=255u8 {
        match EntityColor::enemy_hue_from(choice) {
            EntityColor::Hue(h) => assert!(h.abs_diff(Player::default_hue()) >= 5),
            EntityColor::White => panic!("an enemy hue is a hue"),
        }
    }
    let mut rng = SmallRng::seed_from_u64(11);
    for _ in 0..500 {
        match EntityColor::random_enemy_hue(&mut rng) {
            EntityColor::Hue(h) => assert!(h.abs_diff(85) >= 5),
            EntityColor::White => panic!("an enemy hue is a hue"),
        }
    }
}

#[test]
fn player_starts_in_the_centre() {
    assert_eq!(Player::default_hue(), 85);
    assert_eq!(Player::default_position(), 3);
    let (_, color, position, timer) = Player::new();
    assert_eq!(color, EntityColor::Hue(85));
    assert_eq!(position, Position::new(3, 3));
    assert_eq!(timer.duration_millis(), 75);
    assert_eq!(EntityColor::default(), EntityColor::White);
}

#[test]
fn death_throes_count_to_five() {
    let mut throes = DeathThroes::default();
    let goes_on: Vec<bool> = (0..6).map(|_| throes.can_update()).collect();
    assert_eq!(goes_on, vec![true, true, true, true, false, false]);
    assert_eq!(throes.0, 6);
}

#[test]
fn show_death_throes_switches() {
    let mut show = ShowDeathThroes::default();
    assert!(!show.get_value());
    show.toggle();
    assert!(show.get_value());
    show.toggle();
    assert!(!show.get_value());
    show.turn_on();
    assert!(show.get_value());
    show.turn_on();
    assert!(show.get_value());
    show.reset();
    assert!(!show.get_value());
}
