//! What holds of every session, whatever the player and chance do.

use crate::common::{MAX_SCREEN_HEIGHT, MAX_SCREEN_WIDTH, SNAKE_SPEED_FACTOR, TIME_FOR_BONUS};
use crate::components::bonus::Bonus;
use crate::components::snake::SnakeDirection;
use crate::input::KeyboardInput;
use crate::resources::game_state::GameState;
use crate::session::{on_screen, SessionView};
use crate::systems::collision::{CollisionEvent, Draws};
use crate::systems::running::{moved, steered_direction, wrapped};
use vstd::prelude::*;

verus! {

/// While the player does not turn the snake (no direction is asked for, or
/// the one it travels in, or a reversal, which is ignored), a tick of a
/// running game moves the head by the speed along its direction, back in on
/// the opposite edge where it leaves the screen, and remembers where it was.
/// The snake is gone after the tick only if the first thing it has run into
/// is a border.
pub proof fn lemma_tick_moves_head(
    session: SessionView,
    direction: SnakeDirection,
    asked: Option<SnakeDirection>,
    delta: u64,
    draws: Draws,
)
    requires
        session.wf(),
        session.game_state == GameState::Running,
        session.snake->0.direction == Some(direction),
        steered_direction(Some(direction), asked) == Some(direction),
    ensures
        ({
            let head = session.snake->0.position;
            let followed = session.steered(asked).aged(delta).snake_moved().queue_shifted();
            let next = session.ticked(asked, delta, draws);
            let hit_border = followed.collisions().len() > 0 && followed.collisions()[0]
                == CollisionEvent::Border;
            &&& followed.snake->0.position == moved(head, direction)
            &&& moved(head, direction).x == wrapped(
                head.x + direction.vector().x * SNAKE_SPEED_FACTOR,
                MAX_SCREEN_WIDTH as int,
            )
            &&& moved(head, direction).y == wrapped(
                head.y + direction.vector().y * SNAKE_SPEED_FACTOR,
                MAX_SCREEN_HEIGHT as int,
            )
            &&& on_screen(moved(head, direction))
            &&& hit_border ==> next.snake is None && next.game_state == GameState::Over
            &&& !hit_border ==> next.snake is Some && next.snake->0.position == moved(
                head,
                direction,
            ) && next.snake->0.last_position == head && next.snake->0.direction == Some(direction)
        }),
{
}

/// The queue has one segment for each point of the score while a playthrough
/// is on, and none before and after it.
pub proof fn lemma_queue_length(session: SessionView)
    requires
        session.wf(),
    ensures
        session.game_state == GameState::Ready || session.game_state == GameState::Running
            || session.game_state == GameState::Paused ==> session.queue.len() == session.score,
        session.game_state == GameState::Initialized || session.game_state == GameState::Over
            ==> session.queue.len() == 0,
{
}

/// A bonus of `points` points grows both the queue and the score by `points`,
/// and leaves the session well formed.
pub proof fn lemma_pickup_grows_queue(session: SessionView, points: u32, draws: Draws)
    requires
        session.wf(),
        session.game_state == GameState::Running,
        session.score + points <= u32::MAX,
        draws.valid_for(session.border_set),
    ensures
        ({
            let next = session.collided(CollisionEvent::Bonus(points), draws);
            &&& next.queue.len() == session.queue.len() + points
            &&& next.score == session.score + points
            &&& next.queue.len() == next.score
            &&& next.game_state == GameState::Running
            &&& next.wf()
        }),
{
}

/// The sum of the points of several bonuses.
pub open spec fn total_points(points: Seq<u32>) -> int
    decreases points.len(),
{
    if points.len() == 0 {
        0
    } else {
        total_points(points.drop_last()) + points.last()
    }
}

/// The session once bonuses worth `points` have been picked up one after
/// another, chance having decided `draws[i]` at the pickup of `points[i]`.
pub open spec fn after_pickups(
    session: SessionView,
    points: Seq<u32>,
    draws: Seq<Draws>,
) -> SessionView
    decreases points.len(),
{
    if points.len() == 0 {
        session
    } else {
        after_pickups(session, points.drop_last(), draws.drop_last()).collided(
            CollisionEvent::Bonus(points.last()),
            draws.last(),
        )
    }
}

/// After any sequence of pickups the queue has grown by the total of their
/// points, and so has the score: in a playthrough, which starts without a
/// point, the queue has as many segments as points were picked up.
pub proof fn lemma_queue_counts_points(session: SessionView, points: Seq<u32>, draws: Seq<Draws>)
    requires
        session.wf(),
        session.game_state == GameState::Running,
        points.len() == draws.len(),
        session.score + total_points(points) <= u32::MAX,
        forall|i: int| 0 <= i < draws.len() ==> (#[trigger] draws[i]).valid_for(session.border_set),
    ensures
        ({
            let next = after_pickups(session, points, draws);
            &&& next.queue.len() == session.queue.len() + total_points(points)
            &&& next.score == session.score + total_points(points)
            &&& next.queue.len() == next.score
            &&& session.score == 0 ==> next.queue.len() == total_points(points)
            &&& next.game_state == GameState::Running
            &&& next.border_set == session.border_set
            &&& next.wf()
        }),
    decreases points.len(),
{
    if points.len() > 0 {
        lemma_queue_counts_points(session, points.drop_last(), draws.drop_last());
        let earlier = after_pickups(session, points.drop_last(), draws.drop_last());
        lemma_pickup_grows_queue(earlier, points.last(), draws.last());
    }
}

/// A border ends the playthrough: the snake, the queue, the bonuses and the
/// borders are gone, the timer is back at zero, the score is kept and the
/// game is over.
pub proof fn lemma_border_ends_playthrough(session: SessionView, draws: Draws)
    requires
        session.wf(),
        session.game_state == GameState::Running,
    ensures
        ({
            let next = session.collided(CollisionEvent::Border, draws);
            &&& next.game_state == GameState::Over
            &&& next.field_is_empty()
            &&& next.score == session.score
            &&& next.border_set == session.border_set
            &&& next.wf()
        }),
{
}

/// A tick of a running game keeps the session well formed, whatever the
/// player asks for and wherever chance puts the bonuses, as long as it puts
/// them clear of the borders.
pub proof fn lemma_tick_keeps_invariant(
    session: SessionView,
    asked: Option<SnakeDirection>,
    delta: u64,
    draws: Draws,
)
    requires
        session.wf(),
        session.game_state == GameState::Running,
        session.score + Bonus::ExtraBonus.points() <= u32::MAX,
        draws.valid_for(session.border_set),
    ensures
        session.ticked(asked, delta, draws).wf(),
        session.ticked(asked, delta, draws).score >= session.score,
{
    let followed = session.steered(asked).aged(delta).snake_moved().queue_shifted();
    crate::systems::running::lemma_collisions_are_worth(followed);
}

/// The states follow one another as the machine allows: a frame leaves the
/// state as it is or takes one of its transitions. So the choice of a border
/// set leads only to the ready state, the end of a playthrough only to the
/// ready state or back to the choice, and a pause is entered from a running
/// game and left for one.
pub proof fn lemma_update_follows_machine(
    session: SessionView,
    input: KeyboardInput,
    delta: u64,
    draws: Draws,
)
    requires
        session.wf(),
    ensures
        ({
            let next = session.updated(input, delta, draws).game_state;
            &&& next == session.game_state || session.game_state.leads_to(next)
            &&& session.game_state == GameState::Initialized ==> next == GameState::Initialized
                || next == GameState::Ready
            &&& session.game_state == GameState::Over ==> next == GameState::Over || next
                == GameState::Ready || next == GameState::Initialized
            &&& session.game_state == GameState::Paused ==> next == GameState::Paused || next
                == GameState::Running
            &&& next == GameState::Paused ==> session.game_state == GameState::Paused
                || session.game_state == GameState::Running
        }),
{
}

/// An extra bonus that has been on the screen for its whole time is gone, and
/// its timer is back at zero; until then it stays and its timer runs.
pub proof fn lemma_extra_bonus_expires(session: SessionView, delta: u64)
    requires
        session.extra_bonus is Some,
    ensures
        session.timer + delta >= TIME_FOR_BONUS ==> session.aged(delta).extra_bonus is None
            && session.aged(delta).timer == 0,
        session.timer + delta < TIME_FOR_BONUS ==> session.aged(delta).extra_bonus
            == session.extra_bonus && session.aged(delta).timer == session.timer + delta,
{
}

} // verus!
