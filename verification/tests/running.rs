use snake::components::snake::{Snake, SnakeDirection};
use snake::geometry::Position;
use snake::input::KeyboardInput;
use snake::resources::border_set::BorderSet;
use snake::resources::game_state::GameState;
use snake::resources::score::Score;
use snake::session::{ExtraBonusTimer, Fade, GameSession};
use snake::systems::collision::{
    check_collisions, collision_handler, handle_collision, CollisionEvent, Draws,
};
use snake::systems::running::{
    enter_pause, extra_bonus_timeout, handle_snake_direction_input, move_queue, move_snake, tick,
};

fn at(x: i32, y: i32) -> Position {
    Position { x, y }
}

fn running(set: BorderSet, head: Position, direction: SnakeDirection) -> GameSession {
    GameSession {
        game_state: GameState::Running,
        border_set: Some(set),
        score: Score(0),
        buttons: Vec::new(),
        snake: Some(Snake { direction: Some(direction), position: head, last_position: head }),
        queue: Vec::new(),
        normal_bonus: Some(at(1500, -1500)),
        extra_bonus: None,
        borders: set.get_borders(),
        borders_visible: true,
        extra_bonus_timer: ExtraBonusTimer { elapsed: 0 },
    }
}

fn keys() -> KeyboardInput {
    KeyboardInput::default()
}

fn fixed_draws(extra_bonus: bool) -> Draws {
    Draws { bonus_position: at(-2000, 1000), extra_bonus, extra_bonus_position: at(2000, 1000) }
}

#[test]
fn the_snake_moves_by_its_speed_in_each_direction() {
    let cases = [
        (SnakeDirection::Right, at(45, 0)),
        (SnakeDirection::Left, at(-45, 0)),
        (SnakeDirection::Up, at(0, 45)),
        (SnakeDirection::Down, at(0, -45)),
    ];
    for (direction, expected) in cases {
        let mut session = running(BorderSet::Cross, at(0, 0), direction);
        move_snake(&mut session);
        let snake = session.snake.unwrap();
        assert_eq!(snake.position, expected);
        assert_eq!(snake.last_position, at(0, 0));
        assert_eq!(snake.direction, Some(direction));
    }
}

#[test]
fn a_snake_without_direction_stays() {
    let mut session = running(BorderSet::Cross, at(300, 300), SnakeDirection::Up);
    session.snake = Some(Snake { direction: None, position: at(300, 300), last_position: at(1, 2) });
    move_snake(&mut session);
    assert_eq!(
        session.snake,
        Some(Snake { direction: None, position: at(300, 300), last_position: at(1, 2) })
    );
}

#[test]
fn the_head_wraps_to_the_opposite_edge() {
    let mut session = running(BorderSet::Horizontal, at(3200, 500), SnakeDirection::Right);
    move_snake(&mut session);
    assert_eq!(session.snake.unwrap().position, at(-3200, 500));

    let mut session = running(BorderSet::Horizontal, at(-3190, 500), SnakeDirection::Left);
    move_snake(&mut session);
    assert_eq!(session.snake.unwrap().position, at(3200, 500));

    let mut session = running(BorderSet::Vertical, at(500, 2400), SnakeDirection::Up);
    move_snake(&mut session);
    assert_eq!(session.snake.unwrap().position, at(500, -2400));

    let mut session = running(BorderSet::Vertical, at(500, -2399), SnakeDirection::Down);
    move_snake(&mut session);
    assert_eq!(session.snake.unwrap().position, at(500, 2400));
}

#[test]
fn the_head_may_stand_on_the_very_edge() {
    let mut session = running(BorderSet::Horizontal, at(3155, 500), SnakeDirection::Right);
    move_snake(&mut session);
    assert_eq!(session.snake.unwrap().position, at(3200, 500));
    let mut session = running(BorderSet::Horizontal, at(500, -2355), SnakeDirection::Down);
    move_snake(&mut session);
    assert_eq!(session.snake.unwrap().position, at(500, -2400));
}

#[test]
fn a_head_at_the_end_of_the_range_does_not_overflow() {
    let mut session = running(BorderSet::Horizontal, at(i32::MAX, i32::MIN), SnakeDirection::Right);
    move_snake(&mut session);
    assert_eq!(session.snake.unwrap().position, at(-3200, 2400));
}

#[test]
fn the_queue_is_a_shift_register() {
    let mut session = running(BorderSet::Cross, at(1000, 1000), SnakeDirection::Right);
    session.snake = Some(Snake {
        direction: Some(SnakeDirection::Right),
        position: at(1000, 1000),
        last_position: at(955, 1000),
    });
    session.queue = vec![at(910, 1000), at(865, 1000), at(6400, 4800)];
    session.score = Score(3);
    move_queue(&mut session);
    assert_eq!(session.queue, vec![at(955, 1000), at(910, 1000), at(865, 1000)]);
    move_queue(&mut session);
    assert_eq!(session.queue, vec![at(955, 1000), at(955, 1000), at(910, 1000)]);
}

#[test]
fn an_empty_queue_stays_empty() {
    let mut session = running(BorderSet::Cross, at(1000, 1000), SnakeDirection::Right);
    move_queue(&mut session);
    assert!(session.queue.is_empty());
}

#[test]
fn a_reversal_is_ignored_and_a_turn_is_taken() {
    let mut session = running(BorderSet::Cross, at(1000, 1000), SnakeDirection::Right);
    handle_snake_direction_input(&mut session, &KeyboardInput { left: true, ..keys() });
    assert_eq!(session.snake.unwrap().direction, Some(SnakeDirection::Right));
    handle_snake_direction_input(&mut session, &KeyboardInput { up: true, ..keys() });
    assert_eq!(session.snake.unwrap().direction, Some(SnakeDirection::Up));
    handle_snake_direction_input(&mut session, &KeyboardInput { down: true, ..keys() });
    assert_eq!(session.snake.unwrap().direction, Some(SnakeDirection::Up));
    handle_snake_direction_input(&mut session, &keys());
    assert_eq!(session.snake.unwrap().direction, Some(SnakeDirection::Up));
}

#[test]
fn a_snake_without_direction_takes_any() {
    let mut session = running(BorderSet::Cross, at(1000, 1000), SnakeDirection::Right);
    session.snake = Some(Snake { direction: None, ..session.snake.unwrap() });
    handle_snake_direction_input(&mut session, &KeyboardInput { left: true, ..keys() });
    assert_eq!(session.snake.unwrap().direction, Some(SnakeDirection::Left));
}

#[test]
fn the_extra_bonus_fades_and_then_expires() {
    let mut session = running(BorderSet::Cross, at(1000, 1000), SnakeDirection::Right);
    session.extra_bonus = Some(at(-1000, -1000));
    assert_eq!(
        session.extra_bonus_fade(),
        Some(Fade { remaining: 10_000_000_000, lifetime: 10_000_000_000 })
    );
    extra_bonus_timeout(&mut session, 2_500_000_000);
    assert_eq!(session.extra_bonus, Some(at(-1000, -1000)));
    assert_eq!(session.extra_bonus_timer.elapsed, 2_500_000_000);
    assert_eq!(
        session.extra_bonus_fade(),
        Some(Fade { remaining: 7_500_000_000, lifetime: 10_000_000_000 })
    );
    extra_bonus_timeout(&mut session, 7_499_999_999);
    assert_eq!(session.extra_bonus, Some(at(-1000, -1000)));
    assert_eq!(session.extra_bonus_timer.elapsed, 9_999_999_999);
    extra_bonus_timeout(&mut session, 1);
    assert_eq!(session.extra_bonus, None);
    assert_eq!(session.extra_bonus_timer.elapsed, 0);
    assert_eq!(session.extra_bonus_fade(), None);
}

#[test]
fn an_extra_bonus_is_gone_after_its_lifetime_in_ticks() {
    // A tick of a hundredth of a second: the lifetime is a thousand ticks.
    let mut session = running(BorderSet::Cross, at(1000, 1000), SnakeDirection::Right);
    session.extra_bonus = Some(at(-1000, -1000));
    for _ in 0..999 {
        extra_bonus_timeout(&mut session, 10_000_000);
        assert!(session.extra_bonus.is_some());
    }
    extra_bonus_timeout(&mut session, 10_000_000);
    assert_eq!(session.extra_bonus, None);
    assert_eq!(session.extra_bonus_timer, ExtraBonusTimer { elapsed: 0 });
}

#[test]
fn the_timer_does_not_run_without_an_extra_bonus() {
    let mut session = running(BorderSet::Cross, at(1000, 1000), SnakeDirection::Right);
    extra_bonus_timeout(&mut session, 5_000_000_000);
    assert_eq!(session.extra_bonus_timer.elapsed, 0);
}

#[test]
fn a_huge_delta_expires_the_extra_bonus() {
    let mut session = running(BorderSet::Cross, at(1000, 1000), SnakeDirection::Right);
    session.extra_bonus = Some(at(-1000, -1000));
    session.extra_bonus_timer = ExtraBonusTimer { elapsed: 9_000_000_000 };
    extra_bonus_timeout(&mut session, u64::MAX);
    assert_eq!(session.extra_bonus, None);
    assert_eq!(session.extra_bonus_timer.elapsed, 0);
}

#[test]
fn the_timer_saturates() {
    let mut timer = ExtraBonusTimer { elapsed: 10 };
    timer.tick(5);
    assert_eq!(timer.elapsed, 15);
    timer.tick(u64::MAX);
    assert_eq!(timer.elapsed, u64::MAX);
    timer.reset();
    assert_eq!(timer, ExtraBonusTimer::default());
}

#[test]
fn nothing_collides_on_an_open_field() {
    let session = running(BorderSet::Cross, at(1000, 1000), SnakeDirection::Right);
    assert!(check_collisions(&session).is_empty());
}

#[test]
fn bonuses_come_before_borders() {
    let mut session = running(BorderSet::Cross, at(120, 120), SnakeDirection::Right);
    session.normal_bonus = Some(at(200, 200));
    session.extra_bonus = Some(at(150, 150));
    assert_eq!(
        check_collisions(&session),
        vec![
            CollisionEvent::Bonus(1),
            CollisionEvent::Bonus(5),
            CollisionEvent::Border,
            CollisionEvent::Border,
        ]
    );
}

#[test]
fn the_head_does_not_collide_with_its_queue() {
    let mut session = running(BorderSet::Cross, at(1000, 1000), SnakeDirection::Right);
    session.queue = vec![at(1000, 1000), at(955, 1000)];
    session.score = Score(2);
    assert!(check_collisions(&session).is_empty());
}

#[test]
fn a_normal_bonus_grows_the_queue_by_one() {
    let mut session = running(BorderSet::Cross, at(1000, 1000), SnakeDirection::Right);
    handle_collision(&mut session, CollisionEvent::Bonus(1), fixed_draws(false));
    assert_eq!(session.score, Score(1));
    assert_eq!(session.queue, vec![at(6400, 4800)]);
    assert_eq!(session.normal_bonus, Some(at(-2000, 1000)));
    assert_eq!(session.extra_bonus, None);
    assert_eq!(session.game_state, GameState::Running);
    assert!(session.is_valid());
}

#[test]
fn a_lucky_normal_bonus_brings_an_extra_bonus() {
    let mut session = running(BorderSet::Cross, at(1000, 1000), SnakeDirection::Right);
    handle_collision(&mut session, CollisionEvent::Bonus(1), fixed_draws(true));
    assert_eq!(session.normal_bonus, Some(at(-2000, 1000)));
    assert_eq!(session.extra_bonus, Some(at(2000, 1000)));
    assert_eq!(session.extra_bonus_timer.elapsed, 0);
    assert!(session.is_valid());
}

#[test]
fn an_extra_bonus_on_the_screen_stays_where_it_is() {
    let mut session = running(BorderSet::Cross, at(1000, 1000), SnakeDirection::Right);
    session.extra_bonus = Some(at(-1000, -1000));
    session.extra_bonus_timer = ExtraBonusTimer { elapsed: 4_000_000_000 };
    handle_collision(&mut session, CollisionEvent::Bonus(1), fixed_draws(true));
    assert_eq!(session.normal_bonus, Some(at(-2000, 1000)));
    assert_eq!(session.extra_bonus, Some(at(-1000, -1000)));
    assert_eq!(session.extra_bonus_timer.elapsed, 4_000_000_000);
    assert_eq!(session.score, Score(1));
}

#[test]
fn an_extra_bonus_grows_the_queue_by_five() {
    let mut session = running(BorderSet::Cross, at(1000, 1000), SnakeDirection::Right);
    session.extra_bonus = Some(at(-1000, -1000));
    session.extra_bonus_timer = ExtraBonusTimer { elapsed: 4_000_000_000 };
    session.queue = vec![at(955, 1000)];
    session.score = Score(1);
    handle_collision(&mut session, CollisionEvent::Bonus(5), fixed_draws(true));
    assert_eq!(session.score, Score(6));
    assert_eq!(session.queue.len(), 6);
    assert_eq!(session.queue[0], at(955, 1000));
    assert!(session.queue[1..].iter().all(|segment| *segment == at(6400, 4800)));
    assert_eq!(session.normal_bonus, Some(at(1500, -1500)));
    assert_eq!(session.extra_bonus, None);
    assert_eq!(session.extra_bonus_timer.elapsed, 0);
    assert!(session.is_valid());
}

#[test]
fn a_border_ends_the_playthrough() {
    let mut session = running(BorderSet::Cross, at(1000, 1000), SnakeDirection::Right);
    session.extra_bonus = Some(at(-1000, -1000));
    session.extra_bonus_timer = ExtraBonusTimer { elapsed: 4_000_000_000 };
    session.queue = vec![at(955, 1000), at(910, 1000)];
    session.score = Score(2);
    handle_collision(&mut session, CollisionEvent::Border, fixed_draws(true));
    assert_eq!(session.game_state, GameState::Over);
    assert_eq!(session.snake, None);
    assert!(session.queue.is_empty());
    assert_eq!(session.normal_bonus, None);
    assert_eq!(session.extra_bonus, None);
    assert!(session.borders.is_empty());
    assert_eq!(session.extra_bonus_timer.elapsed, 0);
    assert_eq!(session.score, Score(2));
    assert_eq!(session.border_set, Some(BorderSet::Cross));
    assert!(!session.borders_visible);
    assert!(session.is_valid());
}

#[test]
fn only_the_first_event_is_handled() {
    let mut session = running(BorderSet::Cross, at(1000, 1000), SnakeDirection::Right);
    let events = vec![CollisionEvent::Bonus(1), CollisionEvent::Border, CollisionEvent::Bonus(5)];
    collision_handler(&mut session, &events);
    assert_eq!(session.game_state, GameState::Running);
    assert_eq!(session.score, Score(1));
    assert_eq!(session.queue.len(), 1);
    assert!(session.snake.is_some());
    assert!(session.is_valid());

    let events = vec![CollisionEvent::Border, CollisionEvent::Bonus(1)];
    collision_handler(&mut session, &events);
    assert_eq!(session.game_state, GameState::Over);
    assert_eq!(session.score, Score(1));
    assert!(session.queue.is_empty());
}

#[test]
fn no_event_changes_nothing() {
    let mut session = running(BorderSet::Cross, at(1000, 1000), SnakeDirection::Right);
    collision_handler(&mut session, &Vec::new());
    assert_eq!(session.game_state, GameState::Running);
    assert_eq!(session.score, Score(0));
    assert_eq!(session.normal_bonus, Some(at(1500, -1500)));
}

#[test]
fn events_are_ignored_when_the_game_is_not_running() {
    let mut session = running(BorderSet::Cross, at(1000, 1000), SnakeDirection::Right);
    session.game_state = GameState::Paused;
    session.borders_visible = false;
    collision_handler(&mut session, &vec![CollisionEvent::Border]);
    assert_eq!(session.game_state, GameState::Paused);
    assert!(session.snake.is_some());
}

#[test]
fn the_relocated_bonus_is_clear_of_the_borders() {
    for _ in 0..500 {
        let mut session = running(BorderSet::Screen, at(0, 0), SnakeDirection::Right);
        collision_handler(&mut session, &vec![CollisionEvent::Bonus(1)]);
        let position = session.normal_bonus.unwrap();
        assert!(BorderSet::Screen.is_bonus_position_free(position));
        if let Some(extra) = session.extra_bonus {
            assert!(BorderSet::Screen.is_bonus_position_free(extra));
        }
        assert!(session.is_valid());
    }
}

#[test]
fn an_extra_bonus_comes_about_one_time_in_ten() {
    let mut spawned = 0;
    for _ in 0..4000 {
        let mut session = running(BorderSet::Cross, at(1000, 1000), SnakeDirection::Right);
        collision_handler(&mut session, &vec![CollisionEvent::Bonus(1)]);
        if session.extra_bonus.is_some() {
            spawned += 1;
        }
    }
    assert!(200 < spawned && spawned < 600, "{} extra bonuses in 4000 pickups", spawned);
}

#[test]
fn pausing_uses_the_key_press_up() {
    let mut session = running(BorderSet::Cross, at(1000, 1000), SnakeDirection::Right);
    let mut input = KeyboardInput { pause: true, right: true, ..keys() };
    enter_pause(&mut session, &mut input);
    assert_eq!(session.game_state, GameState::Paused);
    assert!(!session.borders_visible);
    assert_eq!(input, KeyboardInput { pause: false, right: true, ..keys() });
    assert!(session.is_valid());
}

#[test]
fn pausing_needs_the_key_and_a_running_game() {
    let mut session = running(BorderSet::Cross, at(1000, 1000), SnakeDirection::Right);
    let mut input = keys();
    enter_pause(&mut session, &mut input);
    assert_eq!(session.game_state, GameState::Running);

    session.game_state = GameState::Over;
    let mut input = KeyboardInput { pause: true, ..keys() };
    enter_pause(&mut session, &mut input);
    assert_eq!(session.game_state, GameState::Over);
    assert!(input.pause);
}

#[test]
fn a_tick_moves_the_head_and_the_queue() {
    let mut session = running(BorderSet::Cross, at(1000, 1000), SnakeDirection::Right);
    session.queue = vec![at(955, 1000), at(910, 1000)];
    session.score = Score(2);
    tick(&mut session, &keys(), 16_000_000);
    let snake = session.snake.unwrap();
    assert_eq!(snake.position, at(1045, 1000));
    assert_eq!(snake.last_position, at(1000, 1000));
    assert_eq!(session.queue, vec![at(1000, 1000), at(955, 1000)]);
    assert_eq!(session.score, Score(2));
    assert_eq!(session.game_state, GameState::Running);
}

#[test]
fn a_tick_steers_before_it_moves() {
    let mut session = running(BorderSet::Cross, at(1000, 1000), SnakeDirection::Right);
    tick(&mut session, &KeyboardInput { up: true, ..keys() }, 16_000_000);
    assert_eq!(session.snake.unwrap().position, at(1000, 1045));
    tick(&mut session, &KeyboardInput { down: true, ..keys() }, 16_000_000);
    assert_eq!(session.snake.unwrap().position, at(1000, 1090));
}

#[test]
fn a_tick_does_nothing_when_the_game_is_not_running() {
    let mut session = running(BorderSet::Cross, at(1000, 1000), SnakeDirection::Right);
    session.game_state = GameState::Paused;
    session.borders_visible = false;
    tick(&mut session, &KeyboardInput { up: true, ..keys() }, 16_000_000);
    assert_eq!(
        session.snake,
        Some(Snake {
            direction: Some(SnakeDirection::Right),
            position: at(1000, 1000),
            last_position: at(1000, 1000),
        })
    );
}

#[test]
fn a_tick_onto_a_normal_bonus_scores_a_point() {
    let mut session = running(BorderSet::Cross, at(1000, 1000), SnakeDirection::Right);
    session.normal_bonus = Some(at(1100, 1000));
    tick(&mut session, &keys(), 16_000_000);
    assert_eq!(session.score, Score(1));
    assert_eq!(session.queue, vec![at(6400, 4800)]);
    let relocated = session.normal_bonus.unwrap();
    assert!(BorderSet::Cross.is_bonus_position_free(relocated));
    assert_eq!(session.game_state, GameState::Running);
    assert!(session.is_valid());
    // The new segment falls into line with the next tick.
    let head = session.snake.unwrap().position;
    session.normal_bonus = Some(at(-2500, -2000));
    session.extra_bonus = None;
    session.extra_bonus_timer.reset();
    tick(&mut session, &keys(), 16_000_000);
    assert_eq!(session.queue, vec![head]);
}

#[test]
fn a_tick_into_a_border_ends_the_game() {
    let mut session = running(BorderSet::Screen, at(3050, 0), SnakeDirection::Right);
    session.queue = vec![at(3005, 0)];
    session.score = Score(1);
    tick(&mut session, &keys(), 16_000_000);
    assert_eq!(session.game_state, GameState::Over);
    assert_eq!(session.snake, None);
    assert!(session.queue.is_empty());
    assert_eq!(session.normal_bonus, None);
    assert_eq!(session.extra_bonus, None);
    assert!(session.borders.is_empty());
    assert_eq!(session.score, Score(1));
    assert!(session.is_valid());
}

#[test]
fn a_tick_ages_the_extra_bonus() {
    let mut session = running(BorderSet::Cross, at(1000, 1000), SnakeDirection::Right);
    session.extra_bonus = Some(at(-1000, -1000));
    tick(&mut session, &keys(), 6_000_000_000);
    assert_eq!(session.extra_bonus_timer.elapsed, 6_000_000_000);
    tick(&mut session, &keys(), 4_000_000_000);
    assert_eq!(session.extra_bonus, None);
    assert_eq!(session.extra_bonus_timer.elapsed, 0);
}

#[test]
fn the_queue_has_one_segment_for_each_point() {
    let mut session = running(BorderSet::Cross, at(1000, 1000), SnakeDirection::Right);
    let mut total = 0;
    for points in [1, 5, 1, 1, 5, 1] {
        session.extra_bonus = if points == 5 { Some(at(-1000, -1000)) } else { None };
        collision_handler(&mut session, &vec![CollisionEvent::Bonus(points)]);
        total += points;
        assert_eq!(session.score, Score(total));
        assert_eq!(session.queue.len(), total as usize);
        // An extra bonus that chance has brought is left aside.
        session.extra_bonus = None;
        session.extra_bonus_timer.reset();
    }
    assert_eq!(total, 14);
    collision_handler(&mut session, &vec![CollisionEvent::Border]);
    assert_eq!(session.queue.len(), 0);
    assert_eq!(session.score, Score(14));
}

#[test]
fn a_bonus_of_another_worth_only_grows_the_queue() {
    let mut session = running(BorderSet::Cross, at(1000, 1000), SnakeDirection::Right);
    session.extra_bonus = Some(at(-1000, -1000));
    handle_collision(&mut session, CollisionEvent::Bonus(3), fixed_draws(true));
    assert_eq!(session.score, Score(3));
    assert_eq!(session.queue.len(), 3);
    assert_eq!(session.normal_bonus, Some(at(1500, -1500)));
    assert_eq!(session.extra_bonus, Some(at(-1000, -1000)));
    handle_collision(&mut session, CollisionEvent::Bonus(0), fixed_draws(true));
    assert_eq!(session.score, Score(3));
    assert_eq!(session.queue.len(), 3);
}
