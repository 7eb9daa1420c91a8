use kg_core::direction::{Direction, DirectionType};
use kg_core::entities::{DeathThroes, GameState, LastEnemyDirection, ShowDeathThroes};
use kg_core::{
    advance_death_throes, advance_enemies, advance_player, dying_enter, dying_exit, dying_update_death_throes, home_update_wait_for_player_interaction,
    in_game_exit_core, running_update_enemy_position, running_update_player_position,
    running_update_try_spawn_enemies, startup_core, DeathStep, EnemyStep, EntityTimer, Mover,
    PlayerStep, Position, Timer, BOARD_SIZE, MAX_ENEMIES,
};
use rand::rngs::SmallRng;
use rand::SeedableRng;

/// A timer that has run out.
fn ready_timer() -> EntityTimer {
    let timer = EntityTimer::new(0);
    while !timer.can_update() {}
    timer
}

/// A timer that will not run out while the test runs.
fn idle_timer() -> EntityTimer {
    EntityTimer::new(u64::MAX)
}

fn mover(x: u8, y: u8, d: DirectionType, timer: EntityTimer) -> Mover {
    Mover { position: Position::new(x, y), timer, direction: Direction::new(d) }
}

#[test]
fn timers_compare_elapsed_time() {
    let timer = Timer::new(75);
    assert_eq!(timer.duration_millis(), 75);
    assert!(!timer.is_over(75_000_000));
    assert!(timer.is_over(75_000_001));
    assert!(!timer.is_over(0));
    assert!(!Timer::new(u64::MAX).can_update());
    assert_eq!(Timer::default().duration_millis(), 0);
    let mut entity_timer = idle_timer();
    assert!(!entity_timer.can_update());
    entity_timer.reset();
    assert_eq!(entity_timer.duration_millis(), u64::MAX);
    assert!(ready_timer().can_update());
}

#[test]
fn startup_places_the_player() {
    let ((_, color, position, timer), last, show) = startup_core();
    assert_eq!(color, kg_core::EntityColor::Hue(85));
    assert_eq!(position, Position::new(3, 3));
    assert_eq!(timer.duration_millis(), 75);
    assert_eq!(last.0, DirectionType::Up);
    assert!(!show.get_value());
}

#[test]
fn home_waits_for_input() {
    assert_eq!(home_update_wait_for_player_interaction(false), None);
    assert_eq!(home_update_wait_for_player_interaction(true), Some(GameState::InGame));
}

#[test]
fn enemies_spawn_up_to_the_limit() {
    let mut rng = SmallRng::seed_from_u64(3);
    let mut last = LastEnemyDirection::default();
    assert!(running_update_try_spawn_enemies(MAX_ENEMIES, &mut last, &mut rng).is_none());
    assert_eq!(last.0, DirectionType::Up);
    for _ in 0..100 {
        let (_, color, position, timer, direction) =
            running_update_try_spawn_enemies(0, &mut last, &mut rng).unwrap();
        assert_eq!(last.0, direction.0);
        assert!(!direction.0.is_complex());
        assert_eq!(timer.duration_millis(), 250);
        match color {
            kg_core::EntityColor::Hue(h) => assert!(h.abs_diff(85) >= 5),
            kg_core::EntityColor::White => panic!("enemies have a hue"),
        }
        assert!(position.can_move(&direction.0));
        match direction.0 {
            DirectionType::Up => assert_eq!(position.y, 0),
            DirectionType::Left => assert_eq!(position.x, BOARD_SIZE),
            DirectionType::Down => assert_eq!(position.y, BOARD_SIZE),
            _ => assert_eq!(position.x, 0),
        }
    }
}

#[test]
fn random_directions_are_straight() {
    let mut rng = SmallRng::seed_from_u64(5);
    let mut seen = [false; 4];
    for _ in 0..200 {
        let d = DirectionType::choose_simple_random(&mut rng);
        assert!(!d.is_complex());
        let index = match d {
            DirectionType::Up => 0,
            DirectionType::Left => 1,
            DirectionType::Down => 2,
            _ => 3,
        };
        seen[index] = true;
        assert!(!DirectionType::choose_new_random(&mut rng, &d).is_complex());
    }
    assert_eq!(seen, [true; 4]);
    assert_eq!(DirectionType::from_straight_index(0), DirectionType::Up);
    assert_eq!(DirectionType::from_straight_index(1), DirectionType::Left);
    assert_eq!(DirectionType::from_straight_index(2), DirectionType::Down);
    assert_eq!(DirectionType::from_straight_index(9), DirectionType::Right);
}

#[test]
fn enemy_waits_for_its_timer() {
    let mut enemies = vec![mover(2, 2, DirectionType::Up, idle_timer())];
    let steps = running_update_enemy_position(&mut enemies, &Position::new(5, 5));
    assert_eq!(steps, vec![EnemyStep::Waiting]);
    assert_eq!(enemies[0].position, Position::new(2, 2));
}

#[test]
fn enemy_steps_and_leaves_at_the_edge() {
    let mut enemies = vec![
        mover(2, 2, DirectionType::Up, ready_timer()),
        mover(0, 4, DirectionType::Left, ready_timer()),
        mover(7, 1, DirectionType::Left, ready_timer()),
    ];
    let steps = running_update_enemy_position(&mut enemies, &Position::new(5, 5));
    assert_eq!(steps, vec![EnemyStep::Moved, EnemyStep::Despawn, EnemyStep::Moved]);
    assert_eq!(enemies[0].position, Position::new(2, 3));
    assert_eq!(enemies[1].position, Position::new(0, 4));
    assert_eq!(enemies[2].position, Position::new(6, 1));
}

#[test]
fn enemy_hitting_the_player_steps_back_and_ends_the_round() {
    let mut enemies = vec![
        mover(3, 2, DirectionType::Up, ready_timer()),
        mover(1, 1, DirectionType::Right, ready_timer()),
    ];
    let steps = running_update_enemy_position(&mut enemies, &Position::new(3, 3));
    assert_eq!(steps, vec![EnemyStep::HitPlayer]);
    assert_eq!(enemies[0].position, Position::new(3, 2));
    assert_eq!(enemies[1].position, Position::new(1, 1));
}

#[test]
fn player_without_input_stays() {
    let mut player = mover(3, 3, DirectionType::Up, ready_timer());
    let r = running_update_player_position(None, &mut player, &vec![]);
    assert_eq!(r, PlayerStep::NoInput);
    assert_eq!(player.position, Position::new(3, 3));
}

#[test]
fn player_waits_for_its_timer() {
    let mut player = mover(3, 3, DirectionType::Up, idle_timer());
    let r = running_update_player_position(Some(DirectionType::Left), &mut player, &vec![]);
    assert_eq!(r, PlayerStep::Waiting);
    assert_eq!(player.position, Position::new(3, 3));
    assert_eq!(player.direction.0, DirectionType::Up);
}

#[test]
fn player_turns_and_steps() {
    let mut player = mover(3, 3, DirectionType::Up, ready_timer());
    let r = running_update_player_position(Some(DirectionType::UpLeft), &mut player, &vec![Position::new(0, 0)]);
    assert_eq!(r, PlayerStep::Moved);
    assert_eq!(player.direction.0, DirectionType::Left);
    assert_eq!(player.position, Position::new(2, 3));
}

#[test]
fn player_stepping_onto_an_enemy_steps_back() {
    let mut player = mover(3, 3, DirectionType::Up, ready_timer());
    let enemies = vec![Position::new(6, 6), Position::new(4, 3)];
    let r = running_update_player_position(Some(DirectionType::Right), &mut player, &enemies);
    assert_eq!(r, PlayerStep::HitEnemy);
    assert_eq!(player.direction.0, DirectionType::Right);
    assert_eq!(player.position, Position::new(3, 3));
}

#[test]
fn death_animation_flashes_four_times_then_ends() {
    let mut show = ShowDeathThroes::default();
    let (mut throes, _timer) = dying_enter(&mut show);
    assert!(show.get_value());
    assert_eq!(throes.0, 0);
    let mut shown = vec![];
    let mut steps = vec![];
    for _ in 0..5 {
        let mut timer = ready_timer();
        steps.push(dying_update_death_throes(&mut throes, &mut timer, &mut show));
        shown.push(show.get_value());
    }
    assert_eq!(
        steps,
        vec![DeathStep::Flashed, DeathStep::Flashed, DeathStep::Flashed, DeathStep::Flashed, DeathStep::Finished]
    );
    assert_eq!(shown, vec![false, true, false, true, true]);
    dying_exit(&mut show);
    assert!(!show.get_value());
}

#[test]
fn death_animation_waits_for_its_timer() {
    let mut show = ShowDeathThroes::default();
    show.turn_on();
    let mut throes = DeathThroes::default();
    let mut timer = idle_timer();
    assert_eq!(dying_update_death_throes(&mut throes, &mut timer, &mut show), DeathStep::Waiting);
    assert_eq!(throes.0, 0);
    assert!(show.get_value());
}

#[test]
fn leaving_the_game_recentres_the_player() {
    let mut p = Position::new(0, 6);
    in_game_exit_core(&mut p);
    assert_eq!(p, Position::new(3, 3));
}

#[test]
fn death_round_follows_the_timer_reading() {
    let mut show = ShowDeathThroes::default();
    show.turn_on();
    let mut throes = DeathThroes(3);
    let mut timer = idle_timer();
    assert_eq!(advance_death_throes(false, &mut throes, &mut timer, &mut show), DeathStep::Waiting);
    assert_eq!(throes.0, 3);
    assert!(show.get_value());
    assert_eq!(advance_death_throes(true, &mut throes, &mut timer, &mut show), DeathStep::Flashed);
    assert_eq!(throes.0, 4);
    assert!(!show.get_value());
    assert_eq!(timer.duration_millis(), u64::MAX);
    assert_eq!(advance_death_throes(true, &mut throes, &mut timer, &mut show), DeathStep::Finished);
    assert_eq!(throes.0, 5);
    assert!(!show.get_value());
}

#[test]
fn enemy_round_follows_the_timer_readings() {
    let mut enemies = vec![
        mover(2, 2, DirectionType::Up, idle_timer()),
        mover(0, 4, DirectionType::Left, idle_timer()),
        mover(255, 1, DirectionType::Right, idle_timer()),
        mover(4, 4, DirectionType::Down, idle_timer()),
    ];
    let steps = advance_enemies(&mut enemies, &vec![false, true, true, true], &Position::new(6, 6));
    assert_eq!(steps, vec![EnemyStep::Waiting, EnemyStep::Despawn, EnemyStep::Despawn, EnemyStep::Moved]);
    assert_eq!(enemies[0].position, Position::new(2, 2));
    assert_eq!(enemies[1].position, Position::new(0, 4));
    assert_eq!(enemies[2].position, Position::new(255, 1));
    assert_eq!(enemies[3].position, Position::new(4, 3));
    assert_eq!(enemies[3].timer.duration_millis(), u64::MAX);
}

#[test]
fn enemy_round_ends_at_the_first_hit() {
    let mut enemies = vec![
        mover(1, 1, DirectionType::Right, idle_timer()),
        mover(3, 4, DirectionType::Down, idle_timer()),
        mover(5, 5, DirectionType::Left, idle_timer()),
    ];
    let steps = advance_enemies(&mut enemies, &vec![true, true, true], &Position::new(3, 3));
    assert_eq!(steps, vec![EnemyStep::Moved, EnemyStep::HitPlayer]);
    assert_eq!(enemies[0].position, Position::new(2, 1));
    assert_eq!(enemies[1].position, Position::new(3, 4));
    assert_eq!(enemies[2].position, Position::new(5, 5));
}

#[test]
fn player_round_follows_the_timer_reading() {
    let mut player = mover(3, 3, DirectionType::Up, idle_timer());
    assert_eq!(advance_player(None, true, &mut player, &vec![]), PlayerStep::NoInput);
    assert_eq!(advance_player(Some(DirectionType::Left), false, &mut player, &vec![]), PlayerStep::Waiting);
    assert_eq!(player.position, Position::new(3, 3));
    assert_eq!(player.direction.0, DirectionType::Up);
    assert_eq!(advance_player(Some(DirectionType::Left), true, &mut player, &vec![]), PlayerStep::Moved);
    assert_eq!(player.position, Position::new(2, 3));
    assert_eq!(player.direction.0, DirectionType::Left);
    let enemies = vec![Position::new(1, 3)];
    assert_eq!(advance_player(Some(DirectionType::Left), true, &mut player, &enemies), PlayerStep::HitEnemy);
    assert_eq!(player.direction.0, DirectionType::Left);
    assert_eq!(player.position, Position::new(2, 3));
}

#[test]
fn new_direction_keeps_a_fresh_first_draw() {
    assert_eq!(DirectionType::resolve_new_direction(DirectionType::Left, DirectionType::Up), Some(DirectionType::Left));
    assert_eq!(DirectionType::resolve_new_direction(DirectionType::Up, DirectionType::Up), None);
    assert_eq!(DirectionType::resolve_new_direction(DirectionType::Right, DirectionType::UpRight), Some(DirectionType::Right));
}

#[test]
fn movers_check_their_byte_range() {
    let m = mover(3, 255, DirectionType::Up, idle_timer());
    assert!(!m.step_fits(DirectionType::Up));
    assert!(!m.step_fits(DirectionType::UpLeft));
    assert!(m.step_fits(DirectionType::Down));
    assert!(m.step_fits(DirectionType::Right));
    // an enemy that cannot move takes no step, so it always fits
    assert!(mover(255, 1, DirectionType::Right, idle_timer()).enemy_step_fits());
    assert!(mover(3, 3, DirectionType::Up, idle_timer()).enemy_step_fits());
    assert!(!mover(3, 255, DirectionType::UpRight, idle_timer()).step_fits(DirectionType::UpRight));
}
