//! The running state: one tick of the simulation, step by step.

use super::collision::{
    border_events, check_collisions, collision_handler, CollisionEvent, Draws,
};
use super::common::{change_system_if_inputs_pressed, get_direction_from_input};
use crate::common::{MAX_SCREEN_HEIGHT, MAX_SCREEN_WIDTH, SNAKE_SPEED_FACTOR, TIME_FOR_BONUS};
use crate::components::bonus::Bonus;
use crate::components::border::Border;
use crate::components::snake::{Snake, SnakeDirection};
use crate::geometry::Position;
use crate::input::KeyboardInput;
use crate::resources::game_state::GameState;
use crate::session::{Fade, GameSession, SessionView};
use vstd::prelude::*;

verus! {

/// A coordinate brought back onto the screen: one that has gone past a limit
/// comes back in on the opposite edge.
pub open spec fn wrapped(value: int, limit: int) -> int {
    if value > limit {
        -limit
    } else if value < -limit {
        limit
    } else {
        value
    }
}

/// Where a head at `position` is after one tick in `direction`.
pub open spec fn moved(position: Position, direction: SnakeDirection) -> Position {
    Position {
        x: wrapped(
            position.x + direction.vector().x * SNAKE_SPEED_FACTOR,
            MAX_SCREEN_WIDTH as int,
        ) as i32,
        y: wrapped(
            position.y + direction.vector().y * SNAKE_SPEED_FACTOR,
            MAX_SCREEN_HEIGHT as int,
        ) as i32,
    }
}

/// The direction of a snake that travels in `current` once the player has
/// asked for `asked`: a reversal is ignored.
pub open spec fn steered_direction(
    current: Option<SnakeDirection>,
    asked: Option<SnakeDirection>,
) -> Option<SnakeDirection> {
    match (current, asked) {
        (_, None) => current,
        (None, Some(_)) => asked,
        (Some(direction), Some(new_direction)) => if direction.conflicts(new_direction) {
            current
        } else {
            asked
        },
    }
}

/// The queue after one shift: each segment takes the place of the one before
/// it, and the first takes `held`.
pub open spec fn shifted(queue: Seq<Position>, held: Position) -> Seq<Position> {
    Seq::new(
        queue.len(),
        |i: int|
            if i == 0 {
                held
            } else {
                queue[i - 1]
            },
    )
}

/// The elapsed time `delta` later; it stops at the largest value it can hold.
pub open spec fn elapsed_after(elapsed: u64, delta: u64) -> u64 {
    if elapsed + delta <= u64::MAX {
        (elapsed + delta) as u64
    } else {
        u64::MAX
    }
}

impl SessionView {
    /// The session once the player has asked for a direction.
    pub open spec fn steered(self, asked: Option<SnakeDirection>) -> SessionView {
        match self.snake {
            Some(snake) => SessionView {
                snake: Some(
                    Snake { direction: steered_direction(snake.direction, asked), ..snake },
                ),
                ..self
            },
            None => self,
        }
    }

    /// The session once the extra bonus, if there is one, has aged by
    /// `delta`: it is gone when its time is up.
    pub open spec fn aged(self, delta: u64) -> SessionView {
        if self.extra_bonus is Some {
            if elapsed_after(self.timer, delta) < TIME_FOR_BONUS {
                SessionView { timer: elapsed_after(self.timer, delta), ..self }
            } else {
                SessionView { extra_bonus: None, timer: 0, ..self }
            }
        } else {
            self
        }
    }

    /// The session once the snake has moved.
    pub open spec fn snake_moved(self) -> SessionView {
        match self.snake {
            Some(snake) => match snake.direction {
                Some(direction) => SessionView {
                    snake: Some(
                        Snake {
                            position: moved(snake.position, direction),
                            last_position: snake.position,
                            ..snake
                        },
                    ),
                    ..self
                },
                None => self,
            },
            None => self,
        }
    }

    /// The session once the queue has followed the snake.
    pub open spec fn queue_shifted(self) -> SessionView {
        match self.snake {
            Some(snake) => SessionView { queue: shifted(self.queue, snake.last_position), ..self },
            None => self,
        }
    }

    /// The session one tick later, with what chance decided.
    pub open spec fn ticked(
        self,
        asked: Option<SnakeDirection>,
        delta: u64,
        draws: Draws,
    ) -> SessionView {
        let followed = self.steered(asked).aged(delta).snake_moved().queue_shifted();
        followed.first_collided(followed.collisions(), draws)
    }

    /// How far the extra bonus has faded, while there is one.
    pub open spec fn extra_bonus_fade(self) -> Option<Fade> {
        if self.extra_bonus is Some && self.timer < TIME_FOR_BONUS {
            Some(Fade { remaining: (TIME_FOR_BONUS - self.timer) as u64, lifetime: TIME_FOR_BONUS })
        } else {
            None
        }
    }
}

/// One coordinate of the head after a step of `step` units.
fn wrap_coordinate(value: i32, step: i32, limit: i32) -> (wrapped_value: i32)
    requires
        -1 <= step <= 1,
        0 <= limit,
    ensures
        wrapped_value == wrapped(value + step * SNAKE_SPEED_FACTOR, limit as int),
{
    assert(-SNAKE_SPEED_FACTOR <= step * SNAKE_SPEED_FACTOR <= SNAKE_SPEED_FACTOR)
        by (nonlinear_arith)
        requires
            -1 <= step <= 1,
            SNAKE_SPEED_FACTOR > 0,
    ;
    let offset: i64 = (step as i64) * (SNAKE_SPEED_FACTOR as i64);
    let new_value: i64 = value as i64 + offset;
    if (limit as i64) < new_value {
        -limit
    } else if new_value < -(limit as i64) {
        limit
    } else {
        new_value as i32
    }
}

/// The movement of the snake per tick. Where the head leaves the screen it
/// comes back in on the opposite edge.
pub fn move_snake(session: &mut GameSession)
    ensures
        final(session)@ == old(session)@.snake_moved(),
        old(session)@.wf() ==> final(session)@.wf(),
{
    if let Some(snake) = session.snake {
        if let Some(direction) = snake.direction {
            let translation = direction.into_translation();
            let new_position = Position {
                x: wrap_coordinate(snake.position.x, translation.x, MAX_SCREEN_WIDTH),
                y: wrap_coordinate(snake.position.y, translation.y, MAX_SCREEN_HEIGHT),
            };
            session.snake = Some(
                Snake {
                    direction: snake.direction,
                    position: new_position,
                    last_position: snake.position,
                },
            );
        }
    }
}

/// Shifts a list of positions by one place and puts `held` first.
fn shift_positions(queue: &mut Vec<Position>, held: Position)
    ensures
        final(queue)@ == shifted(old(queue)@, held),
{
    let mut last_position = held;
    let mut i: usize = 0;
    while i < queue.len()
        invariant
            i <= queue.len(),
            queue.len() == old(queue).len(),
            forall|j: int| 0 <= j < i ==> queue@[j] == shifted(old(queue)@, held)[j],
            forall|j: int| i <= j < queue.len() ==> queue@[j] == old(queue)@[j],
            last_position == if i == 0 {
                held
            } else {
                old(queue)@[i - 1]
            },
        decreases queue.len() - i,
    {
        let current = queue[i];
        queue[i] = last_position;
        last_position = current;
        i += 1;
    }
    assert(queue@ =~= shifted(old(queue)@, held));
}

/// Moves the queue of the snake, where n+1 position = n position and 0 = snake's last position
pub fn move_queue(session: &mut GameSession)
    ensures
        final(session)@ == old(session)@.queue_shifted(),
        old(session)@.wf() ==> final(session)@.wf(),
{
    if let Some(snake) = session.snake {
        shift_positions(&mut session.queue, snake.last_position);
    }
}

/// Timeouts the extra bonus if it is on the screen: it ages by `delta`
/// nanoseconds, and is gone once it has been there for `TIME_FOR_BONUS`.
pub fn extra_bonus_timeout(session: &mut GameSession, delta: u64)
    ensures
        final(session)@ == old(session)@.aged(delta),
        old(session)@.wf() ==> final(session)@.wf(),
{
    if session.extra_bonus.is_some() {
        session.extra_bonus_timer.tick(delta);
        // If the time limit has been reached, we despawn the extra bonus.
        if session.extra_bonus_timer.elapsed >= TIME_FOR_BONUS {
            session.extra_bonus = None;
            session.extra_bonus_timer.reset();
        }
    }
}

/// Enter in pause when the game is running.
pub fn enter_pause(session: &mut GameSession, keyboard_input: &mut KeyboardInput)
    ensures
        final(session)@ == old(session)@.switched(
            GameState::Running,
            GameState::Paused,
            old(keyboard_input).pause,
        ),
        *final(keyboard_input) == old(keyboard_input).pause_used(
            old(session)@.game_state == GameState::Running,
        ),
        old(session)@.wf() ==> final(session)@.wf(),
{
    if session.game_state == GameState::Running {
        change_system_if_inputs_pressed(GameState::Paused, &mut keyboard_input.pause, session);
    }
}

/// Handle a snake direction change on input.
pub fn handle_snake_direction_input(session: &mut GameSession, keyboard_input: &KeyboardInput)
    ensures
        final(session)@ == old(session)@.steered(keyboard_input.direction()),
        old(session)@.wf() && old(session)@.game_state != GameState::Ready ==> final(session)@.wf(),
{
    if let Some(new_direction) = get_direction_from_input(keyboard_input) {
        if let Some(snake) = session.snake {
            let apply = match snake.direction {
                Some(direction) => !direction.conflicts_with(new_direction),
                None => true,
            };
            if apply {
                session.snake = Some(
                    Snake {
                        direction: Some(new_direction),
                        position: snake.position,
                        last_position: snake.last_position,
                    },
                );
            }
        }
    }
}

/// A border never gives an event other than that of a border.
proof fn lemma_border_events(head: Position, borders: Seq<Border>)
    ensures
        forall|i: int|
            0 <= i < border_events(head, borders).len() ==> border_events(head, borders)[i]
                == CollisionEvent::Border,
    decreases borders.len(),
{
    if borders.len() > 0 {
        lemma_border_events(head, borders.drop_last());
    }
}

/// Every collision is with a border, the normal bonus or the extra bonus.
pub proof fn lemma_collisions_are_worth(session: SessionView)
    ensures
        forall|i: int|
            0 <= i < session.collisions().len() ==> {
                let event = #[trigger] session.collisions()[i];
                ||| event == CollisionEvent::Border
                ||| event == CollisionEvent::Bonus(Bonus::Normal.points())
                ||| event == CollisionEvent::Bonus(Bonus::ExtraBonus.points())
            },
{
    if let Some(snake) = session.snake {
        lemma_border_events(snake.position, session.borders);
    }
}

/// One tick of the simulation while the game is running: the player steers,
/// the extra bonus ages, the snake moves, the queue follows, and the first
/// thing that the head has run into is handled. In any other state nothing
/// happens.
pub fn tick(session: &mut GameSession, keyboard_input: &KeyboardInput, delta: u64)
    requires
        old(session)@.wf(),
        old(session)@.score + Bonus::ExtraBonus.points() <= u32::MAX,
    ensures
        old(session)@.game_state != GameState::Running ==> final(session)@ == old(session)@,
        old(session)@.game_state == GameState::Running ==> exists|draws: Draws|
            draws.valid_for(old(session)@.border_set) && final(session)@ == old(session)@.ticked(
                keyboard_input.direction(),
                delta,
                draws,
            ),
        final(session)@.wf(),
{
    if session.game_state != GameState::Running {
        return ;
    }
    handle_snake_direction_input(session, keyboard_input);
    extra_bonus_timeout(session, delta);
    move_snake(session);
    move_queue(session);
    let events = check_collisions(session);
    proof {
        lemma_collisions_are_worth(session@);
    }
    collision_handler(session, &events);
}

impl GameSession {
    /// How far the extra bonus has faded, while there is one: its opacity is
    /// one minus the part of its time that has elapsed.
    pub fn extra_bonus_fade(&self) -> (fade: Option<Fade>)
        ensures
            fade == self@.extra_bonus_fade(),
    {
        if self.extra_bonus.is_some() && self.extra_bonus_timer.elapsed < TIME_FOR_BONUS {
            Some(
                Fade {
                    remaining: TIME_FOR_BONUS - self.extra_bonus_timer.elapsed,
                    lifetime: TIME_FOR_BONUS,
                },
            )
        } else {
            None
        }
    }
}

} // verus!
