//! The session: everything that a playthrough owns, in one value.

use crate::common::{
    MAX_SCREEN_HEIGHT, MAX_SCREEN_WIDTH, MIN_SCREEN_HEIGHT, MIN_SCREEN_WIDTH, SNAKE_SIZE,
    TIME_FOR_BONUS,
};
use crate::components::border::Border;
use crate::components::snake::Snake;
use crate::geometry::{Dimensions, Position};
use crate::input::Interaction;
use crate::resources::border_set::BorderSet;
use crate::resources::game_state::GameState;
use crate::resources::score::Score;
use vstd::prelude::*;

verus! {

/// The colour of a button.
#[derive(Debug, Eq, PartialEq, Copy, Clone, Structural)]
pub enum ButtonColor {
    /// The button when the user isn't hovering it.
    Normal,
    /// The button when the user hovers it.
    Hovered,
}

/// A button that offers a border set to the player.
#[derive(Debug, Eq, PartialEq, Copy, Clone, Structural)]
pub struct BorderSetButton {
    /// The border set that a click on the button picks.
    pub border_set: BorderSet,
    /// What the pointer does to the button in this frame.
    pub interaction: Interaction,
    /// The colour the button is drawn in.
    pub color: ButtonColor,
}

/// The time for which the extra bonus has been on the screen, in nanoseconds.
#[derive(Debug, Eq, PartialEq, Copy, Clone, Structural)]
pub struct ExtraBonusTimer {
    pub elapsed: u64,
}

/// How far the extra bonus has faded: its opacity is `remaining / lifetime`.
#[derive(Debug, Eq, PartialEq, Copy, Clone, Structural)]
pub struct Fade {
    pub remaining: u64,
    pub lifetime: u64,
}

/// The state of the game.
#[derive(Debug, Clone, PartialEq, Eq)]
pub struct GameSession {
    /// The state the application is in.
    pub game_state: GameState,
    /// The border set the player has picked, if any.
    pub border_set: Option<BorderSet>,
    /// The score of the playthrough.
    pub score: Score,
    /// The buttons that offer the border sets.
    pub buttons: Vec<BorderSetButton>,
    /// The snake.
    pub snake: Option<Snake>,
    /// The positions of the queue's segments, the one next to the head first.
    pub queue: Vec<Position>,
    /// Where the normal bonus is.
    pub normal_bonus: Option<Position>,
    /// Where the extra bonus is, while there is one.
    pub extra_bonus: Option<Position>,
    /// The borders of the playthrough.
    pub borders: Vec<Border>,
    /// Whether the borders are shown.
    pub borders_visible: bool,
    /// For how long the extra bonus has been there.
    pub extra_bonus_timer: ExtraBonusTimer,
}

/// The mathematical value of a [`GameSession`].
pub struct SessionView {
    pub game_state: GameState,
    pub border_set: Option<BorderSet>,
    pub score: u32,
    pub buttons: Seq<BorderSetButton>,
    pub snake: Option<Snake>,
    pub queue: Seq<Position>,
    pub normal_bonus: Option<Position>,
    pub extra_bonus: Option<Position>,
    pub borders: Seq<Border>,
    pub borders_visible: bool,
    pub timer: u64,
}

/// The size of the square that the snake's head occupies.
pub open spec fn snake_dimensions() -> Dimensions {
    Dimensions { width: SNAKE_SIZE, height: SNAKE_SIZE }
}

/// Whether a point lies within the screen limits, edges included.
pub open spec fn on_screen(position: Position) -> bool {
    &&& MIN_SCREEN_WIDTH <= position.x <= MAX_SCREEN_WIDTH
    &&& MIN_SCREEN_HEIGHT <= position.y <= MAX_SCREEN_HEIGHT
}

/// The buttons as they are when the choice of a border set begins: one for
/// each border set, untouched.
pub open spec fn fresh_buttons() -> Seq<BorderSetButton> {
    Seq::new(
        BorderSet::all().len(),
        |i: int|
            BorderSetButton {
                border_set: BorderSet::all()[i],
                interaction: Interaction::Idle,
                color: ButtonColor::Normal,
            },
    )
}

/// Whether `buttons` offers each border set once, in the catalogue's order.
pub open spec fn buttons_offer_all(buttons: Seq<BorderSetButton>) -> bool {
    &&& buttons.len() == BorderSet::all().len()
    &&& forall|i: int| 0 <= i < buttons.len() ==> (#[trigger] buttons[i]).border_set == BorderSet::all()[i]
}

impl SessionView {
    /// No snake, queue, bonus or border is on the field.
    pub open spec fn field_is_empty(self) -> bool {
        &&& self.snake is None
        &&& self.queue.len() == 0
        &&& self.normal_bonus is None
        &&& self.extra_bonus is None
        &&& self.borders.len() == 0
        &&& self.timer == 0
    }

    /// A playthrough is set up: the snake is on the screen, the normal bonus
    /// and the extra bonus, if any, are clear of the borders of the chosen
    /// set, and the queue has one segment for each point.
    pub open spec fn in_play(self) -> bool {
        &&& self.border_set matches Some(set)
        &&& self.borders == set.borders()
        &&& self.snake matches Some(snake)
        &&& on_screen(snake.position)
        &&& self.normal_bonus matches Some(normal)
        &&& set.is_free_bonus_position(normal)
        &&& self.extra_bonus matches Some(extra) ==> set.is_free_bonus_position(extra)
            && self.timer < TIME_FOR_BONUS
        &&& self.extra_bonus is None ==> self.timer == 0
        &&& self.queue.len() == self.score
        &&& self.buttons.len() == 0
    }

    /// The invariant of a session.
    pub open spec fn wf(self) -> bool {
        &&& self.borders_visible == self.game_state.borders_visible()
        &&& match self.game_state {
            GameState::Initialized => {
                &&& self.field_is_empty()
                &&& self.border_set is None
                &&& self.score == 0
                &&& buttons_offer_all(self.buttons)
            },
            GameState::Ready => {
                &&& self.in_play()
                &&& self.snake->0.direction is None
                &&& self.score == 0
                &&& self.extra_bonus is None
            },
            GameState::Running | GameState::Paused => {
                &&& self.in_play()
                &&& self.snake->0.direction is Some
            },
            GameState::Over => {
                &&& self.field_is_empty()
                &&& self.border_set is Some
                &&& self.buttons.len() == 0
            },
        }
    }
}

impl View for GameSession {
    type V = SessionView;

    open spec fn view(&self) -> SessionView {
        SessionView {
            game_state: self.game_state,
            border_set: self.border_set,
            score: self.score.0,
            buttons: self.buttons@,
            snake: self.snake,
            queue: self.queue@,
            normal_bonus: self.normal_bonus,
            extra_bonus: self.extra_bonus,
            borders: self.borders@,
            borders_visible: self.borders_visible,
            timer: self.extra_bonus_timer.elapsed,
        }
    }
}

/// Tells whether two lists of borders hold the same borders in the same order.
fn same_borders(left: &Vec<Border>, right: &Vec<Border>) -> (same: bool)
    ensures
        same == (left@ == right@),
{
    if left.len() != right.len() {
        return false;
    }
    let mut i: usize = 0;
    while i < left.len()
        invariant
            i <= left.len(),
            left.len() == right.len(),
            forall|j: int| 0 <= j < i ==> left@[j] == right@[j],
        decreases left.len() - i,
    {
        if left[i] != right[i] {
            return false;
        }
        i += 1;
    }
    assert(left@ =~= right@);
    true
}

/// Tells whether `buttons` offers each border set once, in the catalogue's order.
fn offers_all(buttons: &Vec<BorderSetButton>) -> (all: bool)
    ensures
        all == buttons_offer_all(buttons@),
{
    let sets = BorderSet::iterator();
    if buttons.len() != sets.len() {
        return false;
    }
    let mut i: usize = 0;
    while i < buttons.len()
        invariant
            i <= buttons.len(),
            buttons.len() == sets.len(),
            sets@ == BorderSet::all(),
            forall|j: int| 0 <= j < i ==> (#[trigger] buttons@[j]).border_set == BorderSet::all()[j],
        decreases buttons.len() - i,
    {
        if buttons[i].border_set != sets[i] {
            return false;
        }
        i += 1;
    }
    true
}

impl GameSession {
    /// Tells whether no snake, queue, bonus or border is on the field.
    fn is_field_empty(&self) -> (empty: bool)
        ensures
            empty == self@.field_is_empty(),
    {
        self.snake.is_none() && self.queue.len() == 0 && self.normal_bonus.is_none()
            && self.extra_bonus.is_none() && self.borders.len() == 0
            && self.extra_bonus_timer.elapsed == 0
    }

    /// Tells whether a playthrough is set up.
    fn is_in_play(&self) -> (in_play: bool)
        ensures
            in_play == self@.in_play(),
    {
        let set = match self.border_set {
            Some(set) => set,
            None => {
                return false;
            },
        };
        let snake = match self.snake {
            Some(snake) => snake,
            None => {
                return false;
            },
        };
        let normal = match self.normal_bonus {
            Some(normal) => normal,
            None => {
                return false;
            },
        };
        let extra_fits = match self.extra_bonus {
            Some(extra) => set.is_bonus_position_free(extra) && self.extra_bonus_timer.elapsed
                < TIME_FOR_BONUS,
            None => self.extra_bonus_timer.elapsed == 0,
        };
        let head_on_screen = MIN_SCREEN_WIDTH <= snake.position.x && snake.position.x
            <= MAX_SCREEN_WIDTH && MIN_SCREEN_HEIGHT <= snake.position.y && snake.position.y
            <= MAX_SCREEN_HEIGHT;
        let borders = set.get_borders();
        same_borders(&self.borders, &borders) && head_on_screen && set.is_bonus_position_free(
            normal,
        ) && extra_fits && self.queue.len() == self.score.0 as usize && self.buttons.len() == 0
    }

    /// Tells whether the session is well formed. A session that this library
    /// has made always is; one whose fields were written by hand may not be.
    pub fn is_valid(&self) -> (valid: bool)
        ensures
            valid == self@.wf(),
    {
        if self.borders_visible != self.game_state.are_borders_visible() {
            return false;
        }
        match self.game_state {
            GameState::Initialized => self.is_field_empty() && self.border_set.is_none()
                && self.score.0 == 0 && offers_all(&self.buttons),
            GameState::Ready => {
                if !self.is_in_play() {
                    return false;
                }
                match self.snake {
                    Some(snake) => snake.direction.is_none() && self.score.0 == 0
                        && self.extra_bonus.is_none(),
                    None => false,
                }
            },
            GameState::Running | GameState::Paused => {
                if !self.is_in_play() {
                    return false;
                }
                match self.snake {
                    Some(snake) => snake.direction.is_some(),
                    None => false,
                }
            },
            GameState::Over => self.is_field_empty() && self.border_set.is_some()
                && self.buttons.len() == 0,
        }
    }
}

impl ExtraBonusTimer {
    /// Adds `delta` to the elapsed time, which stops at the largest value
    /// that it can hold.
    pub fn tick(&mut self, delta: u64)
        ensures
            final(self).elapsed == if old(self).elapsed + delta <= u64::MAX {
                (old(self).elapsed + delta) as u64
            } else {
                u64::MAX
            },
    {
        self.elapsed = self.elapsed.saturating_add(delta);
    }

    /// Puts the elapsed time back to zero.
    pub fn reset(&mut self)
        ensures
            final(self).elapsed == 0,
    {
        self.elapsed = 0;
    }
}

impl Default for ExtraBonusTimer {
    fn default() -> (timer: Self)
        ensures
            timer.elapsed == 0,
    {
        ExtraBonusTimer { elapsed: 0 }
    }
}

} // verus!
