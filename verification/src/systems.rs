use core::ops::Not;
use rand::rngs::SmallRng;
use vstd::prelude::*;

use crate::direction::{is_diagonal, next_player_direction, opposite, Direction, DirectionType};
use crate::entities::{
    enemy_hue, DeathThroes, Enemy, EntityColor, GameState, LastEnemyDirection, Player,
    ShowDeathThroes, DEATH_THROWS_COUNT, DEATH_THROWS_SPEED_MILLIS, ENEMY_MOVE_SPEED_MILLIS,
    MAX_ENEMIES, PLAYER_HUE, PLAYER_MOVE_SPEED_MILLIS,
};
use crate::position::{
    enemy_entry, lemma_allowed_straight_step_undone, lemma_moved_stays_on_board, may_move, moved,
    moves_right, moves_up, off_board, Position, BOARD_SIZE,
};
use crate::spawn::draws_direction;
use crate::timer::{timer_reading, EntityTimer};

verus! {

/// An entity that moves by itself: its cell, the timer that paces its moves
/// and the direction it moves in.
#[derive(Clone, Copy)]
pub struct Mover {
    pub position: Position,
    pub timer: EntityTimer,
    pub direction: Direction,
}

/// Whether a step from `p` in direction `d` can be computed in a byte: a
/// coordinate that grows must not already be the largest byte.
pub open spec fn step_fits(p: Position, d: DirectionType) -> bool {
    &&& moves_up(d) ==> p.y < u8::MAX
    &&& moves_right(d) ==> p.x < u8::MAX
}

impl Mover {
    /// Whether a step of this mover in direction `d` can be computed in a
    /// byte (see `step_fits`).
    pub fn step_fits(&self, d: DirectionType) -> (r: bool)
        ensures
            r == step_fits(self.position, d),
    {
        let up = d == DirectionType::Up || d == DirectionType::UpLeft || d == DirectionType::UpRight;
        let right = d == DirectionType::Right || d == DirectionType::UpRight || d == DirectionType::DownRight;
        (!up || self.position.y < u8::MAX) && (!right || self.position.x < u8::MAX)
    }

    /// Whether this mover, as an enemy, may take the step the board allows
    /// it without overflowing a byte (see `enemy_step_fits`).
    pub fn enemy_step_fits(&self) -> (r: bool)
        ensures
            r == enemy_step_fits(*self),
    {
        !self.position.can_move(&self.direction.0) || self.step_fits(self.direction.0)
    }
}

/// What became of one enemy in one round of enemy moves.
#[derive(Clone, Copy, Debug, PartialEq, Eq, Structural)]
pub enum EnemyStep {
    /// Its timer had not run out; it did not move.
    Waiting,
    /// It reached the edge it moves towards and leaves the game.
    Despawn,
    /// It took a step.
    Moved,
    /// Its step led onto the player's cell: the step is taken back and the
    /// player dies.
    HitPlayer,
}

/// What an enemy whose timer ran out does, from cell `p` in direction `d`,
/// with the player on cell `player`; and the cell where it ends.
pub open spec fn enemy_step(p: Position, d: DirectionType, player: Position) -> (EnemyStep, Position) {
    if !may_move(p, d) {
        (EnemyStep::Despawn, p)
    } else if moved(p, d) == player {
        (EnemyStep::HitPlayer, moved(moved(p, d), opposite(d)))
    } else {
        (EnemyStep::Moved, moved(p, d))
    }
}

/// What became of the enemy `after`, which was `before`, in a round where
/// its step was `step`.
pub open spec fn enemy_round_entry(before: Mover, after: Mover, step: EnemyStep, player: Position) -> bool {
    if step == EnemyStep::Waiting {
        after == before
    } else {
        &&& (step, after.position) == enemy_step(before.position, before.direction.0, player)
        &&& after.direction == before.direction
        &&& step == EnemyStep::Moved ==> after.timer.duration() == before.timer.duration() && after.timer.restarts() == before.timer.restarts() + 1
        &&& step != EnemyStep::Moved ==> after.timer == before.timer
    }
}

/// An enemy's step is never left on the player's cell; an enemy that moves
/// straight and steps from a cell of the board onto the player goes back to
/// the cell it left, and an enemy on the board stays on it.
pub proof fn lemma_enemy_step_outcome(p: Position, d: DirectionType, player: Position)
    requires
        p.x <= BOARD_SIZE,
        p.y <= BOARD_SIZE,
    ensures
        ({
            let (step, q) = enemy_step(p, d, player);
            &&& !off_board(p) ==> !off_board(q)
            &&& step == EnemyStep::Moved ==> q != player
            &&& step == EnemyStep::HitPlayer && !off_board(p) && !is_diagonal(d) ==> q == p
        }),
{
    lemma_moved_stays_on_board(p, d);
    if may_move(p, d) {
        lemma_moved_stays_on_board(moved(p, d), opposite(d));
        if !off_board(p) && !is_diagonal(d) {
            lemma_allowed_straight_step_undone(p, d);
        }
    }
}

/// Whether an enemy may take the step the board allows it without a
/// coordinate overflowing a byte.
pub open spec fn enemy_step_fits(m: Mover) -> bool {
    may_move(m.position, m.direction.0) ==> step_fits(m.position, m.direction.0)
}

/// One round of enemy moves, `ready[i]` telling whether the timer of enemy
/// `i` ran out. Each enemy in turn whose timer ran out either leaves the game
/// (at the edge), or steps and restarts its timer; the round stops at the
/// first enemy that steps onto the player's cell, which takes its step back.
/// The result lists what became of each enemy handled, in order; enemies
/// after the last one listed were not handled.
pub fn advance_enemies(enemies: &mut Vec<Mover>, ready: &Vec<bool>, player_position: &Position) -> (steps: Vec<EnemyStep>)
    requires
        ready.len() == old(enemies).len(),
        forall|i: int| 0 <= i < old(enemies).len() ==> enemy_step_fits(#[trigger] old(enemies)[i]),
    ensures
        final(enemies).len() == old(enemies).len(),
        steps.len() <= old(enemies).len(),
        forall|i: int| 0 <= i < steps.len() ==> (#[trigger] steps[i] == EnemyStep::Waiting) == !ready[i],
        forall|i: int| 0 <= i < steps.len() ==> enemy_round_entry(#[trigger] old(enemies)[i], final(enemies)[i], steps[i], *player_position),
        forall|i: int| steps.len() <= i < old(enemies).len() ==> #[trigger] final(enemies)[i] == old(enemies)[i],
        forall|i: int| 0 <= i < steps.len() - 1 ==> #[trigger] steps[i] != EnemyStep::HitPlayer,
        steps.len() < old(enemies).len() ==> steps.len() > 0 && steps[steps.len() - 1] == EnemyStep::HitPlayer,
{
    let n = enemies.len();
    let mut steps: Vec<EnemyStep> = Vec::new();
    let mut i: usize = 0;
    while i < n
        invariant
            n == old(enemies).len(),
            ready.len() == n,
            enemies.len() == n,
            i <= n,
            steps.len() == i,
            forall|j: int| 0 <= j < n ==> enemy_step_fits(#[trigger] old(enemies)[j]),
            forall|j: int| 0 <= j < i ==> (#[trigger] steps[j] == EnemyStep::Waiting) == !ready[j],
            forall|j: int| 0 <= j < i ==> enemy_round_entry(#[trigger] old(enemies)[j], enemies[j], steps[j], *player_position),
            forall|j: int| i <= j < n ==> #[trigger] enemies[j] == old(enemies)[j],
            forall|j: int| 0 <= j < i ==> #[trigger] steps[j] != EnemyStep::HitPlayer,
        decreases n - i,
    {
        let mut enemy = enemies[i];
        assert(enemy == old(enemies)[i as int]);
        if !ready[i] {
            steps.push(EnemyStep::Waiting);
        } else if !enemy.position.can_move(&enemy.direction.0) {
            steps.push(EnemyStep::Despawn);
        } else {
            let direction = enemy.direction.0;
            enemy.position.update_with_direction(direction);
            if enemy.position.eq(player_position) {
                enemy.position.update_with_direction(direction.not());
                enemies[i] = enemy;
                steps.push(EnemyStep::HitPlayer);
                return steps;
            }
            enemy.timer.reset();
            enemies[i] = enemy;
            steps.push(EnemyStep::Moved);
        }
        i += 1;
    }
    steps
}

/// One round of enemy moves, reading each enemy's timer (see
/// `advance_enemies`). Whether a timer ran out depends on the clock: an
/// enemy handled is `Waiting` exactly when the reading of its timer said it
/// had not run out, and every other outcome is stated exactly.
pub fn running_update_enemy_position(enemies: &mut Vec<Mover>, player_position: &Position) -> (steps: Vec<EnemyStep>)
    requires
        forall|i: int| 0 <= i < old(enemies).len() ==> enemy_step_fits(#[trigger] old(enemies)[i]),
    ensures
        final(enemies).len() == old(enemies).len(),
        steps.len() <= old(enemies).len(),
        forall|i: int| 0 <= i < steps.len() ==> timer_reading(old(enemies)[i].timer, #[trigger] steps[i] != EnemyStep::Waiting),
        forall|i: int| 0 <= i < steps.len() ==> enemy_round_entry(#[trigger] old(enemies)[i], final(enemies)[i], steps[i], *player_position),
        forall|i: int| steps.len() <= i < old(enemies).len() ==> #[trigger] final(enemies)[i] == old(enemies)[i],
        forall|i: int| 0 <= i < steps.len() - 1 ==> #[trigger] steps[i] != EnemyStep::HitPlayer,
        steps.len() < old(enemies).len() ==> steps.len() > 0 && steps[steps.len() - 1] == EnemyStep::HitPlayer,
{
    let n = enemies.len();
    let mut ready: Vec<bool> = Vec::new();
    let mut i: usize = 0;
    while i < n
        invariant
            n == enemies.len(),
            enemies@ == old(enemies)@,
            i <= n,
            ready.len() == i,
            forall|j: int| 0 <= j < i ==> timer_reading(enemies[j].timer, #[trigger] ready[j]),
        decreases n - i,
    {
        ready.push(enemies[i].timer.can_update());
        i += 1;
    }
    advance_enemies(enemies, &ready, player_position)
}

/// What became of the player in one round of input handling.
#[derive(Clone, Copy, Debug, PartialEq, Eq, Structural)]
pub enum PlayerStep {
    /// No input was pending.
    NoInput,
    /// An input was pending but the player's timer had not run out.
    Waiting,
    /// The player turned as the input asked and took a step.
    Moved,
    /// The player's step led onto an enemy's cell: the step is taken back
    /// and the player dies.
    HitEnemy,
}

/// What the player does on input `input` once its timer ran out, from cell
/// `p` where it followed direction `current`, with enemies on the cells
/// `enemies`: its step, the cell where it ends and the direction it follows.
pub open spec fn player_step(p: Position, current: DirectionType, input: DirectionType, enemies: Seq<Position>) -> (PlayerStep, Position, DirectionType) {
    let d = next_player_direction(current, input);
    if enemies.contains(moved(p, d)) {
        (PlayerStep::HitEnemy, moved(moved(p, d), opposite(d)), d)
    } else {
        (PlayerStep::Moved, moved(p, d), d)
    }
}

/// Whether one of the cells `positions` is `p`.
fn position_taken(p: &Position, positions: &Vec<Position>) -> (r: bool)
    ensures
        r == positions@.contains(*p),
{
    let n = positions.len();
    let mut k: usize = 0;
    while k < n
        invariant
            n == positions.len(),
            k <= n,
            forall|j: int| 0 <= j < k ==> positions@[j] != *p,
        decreases n - k,
    {
        if positions[k].eq(p) {
            assert(positions@[k as int] == *p);
            return true;
        }
        k += 1;
    }
    false
}

/// A player's step is never left on an enemy's cell, and a step onto an
/// enemy that the edge did not stop is taken back to the cell the player
/// left (the player only moves straight).
pub proof fn lemma_player_step_outcome(p: Position, current: DirectionType, input: DirectionType, enemies: Seq<Position>)
    requires
        !off_board(p),
    ensures
        ({
            let (step, q, d) = player_step(p, current, input, enemies);
            &&& !is_diagonal(d)
            &&& !off_board(q)
            &&& step == PlayerStep::Moved ==> !enemies.contains(q)
            &&& step == PlayerStep::HitEnemy && may_move(p, d) ==> q == p
        }),
{
    let d = next_player_direction(current, input);
    lemma_moved_stays_on_board(p, d);
    lemma_moved_stays_on_board(moved(p, d), opposite(d));
    if may_move(p, d) {
        lemma_allowed_straight_step_undone(p, d);
    }
}

/// Handles the first pending input of the player, `input`, `ready` telling
/// whether the player's timer ran out. When it did, the player turns as the
/// input asks (a diagonal becomes a straight direction), steps, and restarts
/// its timer; a step onto an enemy's cell is taken back instead, and the
/// player dies. When it did not, or no input is pending, nothing changes.
pub fn advance_player(input: Option<DirectionType>, ready: bool, player: &mut Mover, enemy_positions: &Vec<Position>) -> (r: PlayerStep)
    requires
        input is Some && ready ==> step_fits(old(player).position, next_player_direction(old(player).direction.0, input->0)),
    ensures
        input is None ==> r == PlayerStep::NoInput,
        input is Some ==> (r == PlayerStep::Waiting) == !ready,
        input is Some ==> r != PlayerStep::NoInput,
        r == PlayerStep::NoInput || r == PlayerStep::Waiting ==> *final(player) == *old(player),
        input is Some && ready ==> {
            &&& (r, final(player).position, final(player).direction.0) == player_step(old(player).position, old(player).direction.0, input->0, enemy_positions@)
            &&& r == PlayerStep::Moved ==> final(player).timer.duration() == old(player).timer.duration() && final(player).timer.restarts() == old(player).timer.restarts() + 1
            &&& r == PlayerStep::HitEnemy ==> final(player).timer == old(player).timer
        },
{
    match input {
        None => PlayerStep::NoInput,
        Some(event) => {
            if !ready {
                return PlayerStep::Waiting;
            }
            let mut moving = *player;
            moving.direction.choose_next_player_direction(event);
            let direction = moving.direction.0;
            moving.position.update_with_direction(direction);
            if position_taken(&moving.position, enemy_positions) {
                moving.position.update_with_direction(direction.not());
                *player = moving;
                return PlayerStep::HitEnemy;
            }
            moving.timer.reset();
            *player = moving;
            PlayerStep::Moved
        },
    }
}

/// Handles the first pending input of the player, `input`, reading the
/// player's timer when an input is pending (see `advance_player`). Whether
/// the timer ran out depends on the clock: with an input pending, the
/// outcome is `Waiting` exactly when the reading of the timer said it had
/// not run out, and every other outcome is stated exactly.
pub fn running_update_player_position(input: Option<DirectionType>, player: &mut Mover, enemy_positions: &Vec<Position>) -> (r: PlayerStep)
    requires
        input is Some ==> step_fits(old(player).position, next_player_direction(old(player).direction.0, input->0)),
    ensures
        input is None ==> r == PlayerStep::NoInput,
        input is Some ==> r != PlayerStep::NoInput,
        input is Some ==> timer_reading(old(player).timer, r != PlayerStep::Waiting),
        r == PlayerStep::NoInput || r == PlayerStep::Waiting ==> *final(player) == *old(player),
        input is Some && r != PlayerStep::Waiting ==> {
            &&& (r, final(player).position, final(player).direction.0) == player_step(old(player).position, old(player).direction.0, input->0, enemy_positions@)
            &&& r == PlayerStep::Moved ==> final(player).timer.duration() == old(player).timer.duration() && final(player).timer.restarts() == old(player).timer.restarts() + 1
            &&& r == PlayerStep::HitEnemy ==> final(player).timer == old(player).timer
        },
{
    let ready = match input {
        Some(_) => player.timer.can_update(),
        None => false,
    };
    advance_player(input, ready, player, enemy_positions)
}

/// The player's components and the resources at the start of the game: the
/// player in the centre cell, no enemy direction yet (up), the board unlit.
pub fn startup_core() -> (r: ((Player, EntityColor, Position, EntityTimer), LastEnemyDirection, ShowDeathThroes))
    ensures
        r.0.1 == EntityColor::Hue(PLAYER_HUE),
        r.0.2 == (Position { x: 3, y: 3 }),
        r.0.3.duration() == PLAYER_MOVE_SPEED_MILLIS,
        r.0.3.restarts() == 0,
        r.1.0 == DirectionType::Up,
        !r.2.value(),
{
    (Player::new(), LastEnemyDirection::default(), ShowDeathThroes::default())
}

/// On the home screen any input starts the game.
pub fn home_update_wait_for_player_interaction(input_pending: bool) -> (r: Option<GameState>)
    ensures
        r == (if input_pending { Some(GameState::InGame) } else { None::<GameState> }),
{
    if input_pending {
        Some(GameState::InGame)
    } else {
        None
    }
}

/// Spawns an enemy while fewer than `MAX_ENEMIES` are on the board
/// (see `Enemy::new`): its direction is the first draw from `rng` when that
/// differs from the last enemy's direction, and a second draw otherwise.
pub fn running_update_try_spawn_enemies(enemy_count: usize, last_enemy_direction: &mut LastEnemyDirection, rng: &mut SmallRng) -> (r: Option<(Enemy, EntityColor, Position, EntityTimer, Direction)>)
    ensures
        r is Some <==> enemy_count < MAX_ENEMIES,
        r is None ==> *final(last_enemy_direction) == *old(last_enemy_direction) && *final(rng) == *old(rng),
        r matches Some(enemy) ==> {
            &&& final(last_enemy_direction).0 == enemy.4.0
            &&& !is_diagonal(enemy.4.0)
            &&& exists|first: &mut SmallRng, d1: DirectionType| {
                &&& *first == *old(rng)
                &&& #[trigger] draws_direction(first, d1)
                &&& d1 != old(last_enemy_direction).0 ==> enemy.4.0 == d1
                &&& d1 == old(last_enemy_direction).0 ==> exists|second: &mut SmallRng| *second == *final(first) && #[trigger] draws_direction(second, enemy.4.0)
            }
            &&& exists|choice: u8| enemy.1 == EntityColor::Hue(enemy_hue(choice))
            &&& exists|cell: u8| cell < BOARD_SIZE && enemy.2 == enemy_entry(enemy.4.0, cell)
            &&& enemy.3.duration() == ENEMY_MOVE_SPEED_MILLIS
            &&& enemy.3.restarts() == 0
        },
{
    if enemy_count < MAX_ENEMIES {
        let mut last = last_enemy_direction.0;
        let enemy = Enemy::new(rng, &mut last);
        last_enemy_direction.0 = last;
        Some(enemy)
    } else {
        None
    }
}

/// When the player starts dying the board is lit in the colour of death and
/// the death animation starts.
pub fn dying_enter(show_death_throes: &mut ShowDeathThroes) -> (r: (DeathThroes, EntityTimer))
    ensures
        final(show_death_throes).value(),
        r.0.0 == 0,
        r.1.duration() == DEATH_THROWS_SPEED_MILLIS,
        r.1.restarts() == 0,
{
    show_death_throes.turn_on();
    DeathThroes::new()
}

/// What became of the death animation on one round.
#[derive(Clone, Copy, Debug, PartialEq, Eq, Structural)]
pub enum DeathStep {
    /// Its timer had not run out.
    Waiting,
    /// The colour of death flashed on or off.
    Flashed,
    /// The animation is over: the game goes back to the home screen.
    Finished,
}

/// One tick of the death animation once its timer ran out, from tick count
/// `count` with the colour of death shown or not (`shown`): the step, the
/// new count and whether the colour is shown after it.
pub open spec fn death_tick(count: int, shown: bool) -> (DeathStep, int, bool) {
    if count + 1 < DEATH_THROWS_COUNT {
        (DeathStep::Flashed, count + 1, !shown)
    } else {
        (DeathStep::Finished, count + 1, shown)
    }
}

/// One round of the death animation, `ready` telling whether its timer ran
/// out: when it did, the animation flashes the colour of death and restarts
/// the timer until its last tick, on which the game goes back to the home
/// screen; when it did not, nothing changes.
pub fn advance_death_throes(ready: bool, death_throes: &mut DeathThroes, timer: &mut EntityTimer, show_death_throes: &mut ShowDeathThroes) -> (r: DeathStep)
    requires
        old(death_throes).0 < usize::MAX,
    ensures
        (r == DeathStep::Waiting) == !ready,
        !ready ==> {
            &&& *final(death_throes) == *old(death_throes)
            &&& *final(timer) == *old(timer)
            &&& *final(show_death_throes) == *old(show_death_throes)
        },
        ready ==> {
            &&& (r, final(death_throes).0 as int, final(show_death_throes).value()) == death_tick(old(death_throes).0 as int, old(show_death_throes).value())
            &&& r == DeathStep::Flashed ==> final(timer).duration() == old(timer).duration() && final(timer).restarts() == old(timer).restarts() + 1
            &&& r == DeathStep::Finished ==> *final(timer) == *old(timer)
        },
{
    if ready {
        if !death_throes.can_update() {
            return DeathStep::Finished;
        }
        show_death_throes.toggle();
        timer.reset();
        DeathStep::Flashed
    } else {
        DeathStep::Waiting
    }
}

/// Advances the death animation when its timer ran out (see
/// `advance_death_throes`). Whether the timer ran out depends on the clock:
/// the round is `Waiting` exactly when the reading of the timer said it had
/// not run out, and every other outcome is stated exactly.
pub fn dying_update_death_throes(death_throes: &mut DeathThroes, timer: &mut EntityTimer, show_death_throes: &mut ShowDeathThroes) -> (r: DeathStep)
    requires
        old(death_throes).0 < usize::MAX,
    ensures
        timer_reading(*old(timer), r != DeathStep::Waiting),
        r == DeathStep::Waiting ==> {
            &&& *final(death_throes) == *old(death_throes)
            &&& *final(timer) == *old(timer)
            &&& *final(show_death_throes) == *old(show_death_throes)
        },
        r != DeathStep::Waiting ==> {
            &&& (r, final(death_throes).0 as int, final(show_death_throes).value()) == death_tick(old(death_throes).0 as int, old(show_death_throes).value())
            &&& r == DeathStep::Flashed ==> final(timer).duration() == old(timer).duration() && final(timer).restarts() == old(timer).restarts() + 1
            &&& r == DeathStep::Finished ==> *final(timer) == *old(timer)
        },
{
    let ready = timer.can_update();
    advance_death_throes(ready, death_throes, timer, show_death_throes)
}

/// The tick count and whether the colour of death is shown after `k` ticks
/// of the death animation, which starts at count zero with the colour shown.
pub open spec fn death_after(k: nat) -> (int, bool)
    decreases k,
{
    if k == 0 {
        (0, true)
    } else {
        let (count, shown) = death_after((k - 1) as nat);
        let (_, next_count, next_shown) = death_tick(count, shown);
        (next_count, next_shown)
    }
}

/// The death animation flashes the colour of death off and on for four
/// ticks, and the fifth tick ends it with the colour still shown.
pub proof fn lemma_death_animation(k: nat)
    requires
        1 <= k <= DEATH_THROWS_COUNT,
    ensures
        death_after(k).0 == k,
        death_after(k).1 == (k % 2 == 0 || k == DEATH_THROWS_COUNT),
        death_tick(death_after((k - 1) as nat).0, death_after((k - 1) as nat).1).0 == (if k < DEATH_THROWS_COUNT {
            DeathStep::Flashed
        } else {
            DeathStep::Finished
        }),
{
    reveal_with_fuel(death_after, 6);
}

/// When the death animation ends the board is no longer lit.
pub fn dying_exit(show_death_throes: &mut ShowDeathThroes)
    ensures
        !final(show_death_throes).value(),
{
    show_death_throes.reset();
}

/// On leaving the game the player goes back to the centre cell.
pub fn in_game_exit_core(player_position: &mut Position)
    ensures
        *final(player_position) == (Position { x: 3, y: 3 }),
{
    player_position.update_square(Player::default_position());
}

} // verus!
