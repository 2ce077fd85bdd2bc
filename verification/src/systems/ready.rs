//! The ready state: the field is set up and the first direction is awaited.

use super::common::{compute_borders_visibility, get_direction_from_input};
use crate::components::snake::{Snake, SnakeDirection};
use crate::geometry::Position;
use crate::input::KeyboardInput;
use crate::resources::border_set::{is_free_in, BorderSet};
use crate::resources::game_state::GameState;
use crate::session::{GameSession, SessionView};
use vstd::prelude::*;

verus! {

impl SessionView {
    /// The session once the snake, the first bonus and the borders of the
    /// chosen border set are on the field, the bonus at `bonus_position`.
    /// Without a border set nothing is spawned.
    pub open spec fn components_spawned(self, bonus_position: Position) -> SessionView {
        match self.border_set {
            Some(set) => SessionView {
                snake: Some(
                    Snake {
                        direction: None,
                        position: set.snake_initial_position(),
                        last_position: Position { x: 0, y: 0 },
                    },
                ),
                normal_bonus: Some(bonus_position),
                borders: self.borders + set.borders(),
                ..self
            },
            None => self,
        }
    }

    /// The session once the player, in the ready state, has asked for a
    /// first direction or not: the first direction starts the game.
    pub open spec fn first_directed(self, asked: Option<SnakeDirection>) -> SessionView {
        if self.game_state == GameState::Ready && asked is Some && self.snake is Some {
            (SessionView {
                snake: Some(Snake { direction: asked, ..self.snake->0 }),
                ..self
            }).entered(GameState::Running)
        } else {
            self
        }
    }
}

impl BorderSet {
    /// Spawn the borders in the given session.
    pub fn spawn_borders(&self, session: &mut GameSession)
        ensures
            final(session)@ == (SessionView {
                borders: old(session)@.borders + self.borders(),
                ..old(session)@
            }),
    {
        let borders = self.get_borders();
        let mut i: usize = 0;
        while i < borders.len()
            invariant
                i <= borders.len(),
                borders@ == self.borders(),
                session@ == (SessionView {
                    borders: old(session)@.borders + self.borders().take(i as int),
                    ..old(session)@
                }),
            decreases borders.len() - i,
        {
            session.borders.push(borders[i]);
            i += 1;
            assert(session@.borders =~= old(session)@.borders + self.borders().take(i as int));
        }
        assert(self.borders().take(i as int) =~= self.borders());
    }
}

/// Puts the snake, the first bonus at `bonus_position` and the borders on the
/// field, if a border set has been chosen.
pub fn spawn_game_components(session: &mut GameSession, bonus_position: Position)
    ensures
        final(session)@ == old(session)@.components_spawned(bonus_position),
{
    if let Some(border_set) = session.border_set {
        let snake_initial_position = border_set.get_snake_initial_position();
        // Spawn snake
        let snake = Snake::default();
        session.snake = Some(
            Snake {
                direction: snake.direction,
                position: snake_initial_position,
                last_position: snake.last_position,
            },
        );
        // The first bonus
        session.normal_bonus = Some(bonus_position);
        border_set.spawn_borders(session);
    }
}

/// Init the game components, allowing the user to interact with the system.
/// Tells whether a border set had been chosen; without one nothing is done.
pub fn init_game_components(session: &mut GameSession) -> (spawned: bool)
    ensures
        spawned == old(session)@.border_set is Some,
        exists|bonus_position: Position|
            #![auto]
            is_free_in(old(session)@.border_set, bonus_position)
                && final(session)@ == old(session)@.components_spawned(bonus_position),
{
    if let Some(border_set) = session.border_set {
        let bonus_initial_position = border_set.compute_random_bonus_position();
        spawn_game_components(session, bonus_initial_position);
        assert(session@ == old(session)@.components_spawned(bonus_initial_position));
        true
    } else {
        assert(session@ == old(session)@.components_spawned(Position { x: 0, y: 0 }));
        false
    }
}

/// Set the first direction of the snake, when the game is initiallized.
pub fn set_first_direction(session: &mut GameSession, keyboard_input: &KeyboardInput)
    ensures
        final(session)@ == old(session)@.first_directed(keyboard_input.direction()),
        old(session)@.wf() ==> final(session)@.wf(),
{
    if session.game_state != GameState::Ready {
        return ;
    }
    let new_direction = get_direction_from_input(keyboard_input);
    if let Some(new_direction) = new_direction {
        if let Some(snake) = session.snake {
            session.snake = Some(
                Snake {
                    direction: Some(new_direction),
                    position: snake.position,
                    last_position: snake.last_position,
                },
            );
            session.game_state = GameState::Running;
            compute_borders_visibility(session);
        }
    }
}

} // verus!
