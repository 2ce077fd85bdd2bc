//! The states of the application and what is shown to the player in each.

use super::score::{decimal, Score};
use crate::common::{MAX_SCREEN_HEIGHT, MAX_SCREEN_WIDTH, UNITS_PER_PIXEL};
use vstd::prelude::*;
use vstd::string::StringExecFns;

verus! {

/// The game state defines the current status of the application.
///
/// This is handful in case we need to spawn or despawn some entities,
/// or load resources before others.
#[derive(Debug, Eq, PartialEq, Copy, Clone, Hash, Structural)]
pub enum GameState {
    /// The initial state : the app is started and a user choice is awaited.
    Initialized,
    /// The ready state : the border set is defined, user input waited.
    Ready,
    /// The running state: the user is playing.
    Running,
    /// The paused state:  the user has paused the system, and his input
    /// is waited in order to resume.
    Paused,
    /// Game over ! User lost, his input is waited in order to
    /// either restart with the same border set or another one.
    Over,
}

/// The colour of a text.
#[derive(Debug, Eq, PartialEq, Copy, Clone, Structural)]
pub enum TextColor {
    White,
}

/// How the text shown to the player is drawn.
#[derive(Debug, Eq, PartialEq, Copy, Clone, Structural)]
pub struct ScoreTextStyle {
    /// The height of the font, in pixels.
    pub font_size: u32,
    pub color: TextColor,
}

/// Where the text shown to the player is laid out. Offsets are lengths of the
/// playfield, a tenth of a pixel each.
#[derive(Debug, Eq, PartialEq, Copy, Clone, Structural)]
pub enum ScoreStyle {
    /// Pinned at the given distances from the bottom and the right of the
    /// screen, its content centred and clipped.
    BottomRight { bottom: i32, right: i32 },
    /// Centred on the screen.
    Centered,
    /// Pinned at the given distances from the top and the left of the screen.
    TopLeft { top: i32, left: i32 },
    /// Not displayed.
    Hidden,
}

/// The text shown to the player, with the way to draw it.
#[derive(Debug, Clone, PartialEq, Eq)]
pub struct ScoreText {
    pub value: String,
    pub style: ScoreTextStyle,
}

impl GameState {
    /// Whether the session may go from this state straight to `next`.
    pub open spec fn leads_to(self, next: GameState) -> bool {
        match self {
            GameState::Initialized => next == GameState::Ready,
            GameState::Ready => next == GameState::Running,
            GameState::Running => next == GameState::Paused || next == GameState::Over,
            GameState::Paused => next == GameState::Running,
            GameState::Over => next == GameState::Ready || next == GameState::Initialized,
        }
    }

    /// Whether the borders are shown in this state.
    pub open spec fn borders_visible(self) -> bool {
        self == GameState::Running || self == GameState::Ready
    }

    /// The text shown in this state to a player whose score is written `score`.
    pub open spec fn score_text_value(self, score: Seq<char>) -> Seq<char> {
        match self {
            GameState::Running => "Score : "@ + score,
            GameState::Over => "Game over\nYour score : "@ + score
                + "\nPress 'R' to restart.\nPress 'ESC' to choose another border set."@,
            GameState::Paused => "The game has been paused\nPress 'P' to resume."@,
            GameState::Ready => Seq::empty(),
            GameState::Initialized => "Choose a border set"@,
        }
    }

    /// How the text of this state is drawn.
    pub open spec fn score_text_style(self) -> ScoreTextStyle {
        match self {
            GameState::Running => ScoreTextStyle { font_size: 16, color: TextColor::White },
            GameState::Over | GameState::Paused | GameState::Initialized => ScoreTextStyle {
                font_size: 30,
                color: TextColor::White,
            },
            GameState::Ready => ScoreTextStyle { font_size: 12, color: TextColor::White },
        }
    }

    /// Where the text of this state is laid out.
    pub open spec fn score_style(self) -> ScoreStyle {
        match self {
            GameState::Running => ScoreStyle::BottomRight { bottom: 100, right: 100 },
            GameState::Paused | GameState::Over => ScoreStyle::Centered,
            GameState::Initialized => ScoreStyle::TopLeft { top: 800, left: 1600 },
            GameState::Ready => ScoreStyle::Hidden,
        }
    }

    /// Returns whether borders are visible or not.
    ///
    /// Useful when we need to show text, as borders can overflow the text.
    pub fn are_borders_visible(&self) -> (visible: bool)
        ensures
            visible == self.borders_visible(),
    {
        matches!(self, Self::Running | Self::Ready)
    }

    /// Returns the text that has to be displayed to the user.
    pub fn get_score_text_value(&self, score: &str) -> (text: String)
        ensures
            text@ == self.score_text_value(score@),
    {
        match self {
            GameState::Running => {
                let text = String::from_str("Score : ").concat(score);
                text
            },
            GameState::Over => {
                let text = String::from_str("Game over\nYour score : ").concat(score).concat(
                    "\nPress 'R' to restart.\nPress 'ESC' to choose another border set.",
                );
                text
            },
            GameState::Paused => String::from_str(
                "The game has been paused\nPress 'P' to resume.",
            ),
            GameState::Ready => {
                let text = String::new();
                assert(text@ =~= Seq::<char>::empty());
                text
            },
            GameState::Initialized => String::from_str("Choose a border set"),
        }
    }

    /// Returns the style of the text displayed to the user.
    pub fn get_score_text_style(&self) -> (style: ScoreTextStyle)
        ensures
            style == self.score_text_style(),
    {
        match self {
            GameState::Running => ScoreTextStyle { font_size: 16, color: TextColor::White },
            GameState::Over | GameState::Paused | GameState::Initialized => ScoreTextStyle {
                font_size: 30,
                color: TextColor::White,
            },
            GameState::Ready => ScoreTextStyle { font_size: 12, color: TextColor::White },
        }
    }

    /// Returns the style of the score.
    pub fn get_score_style(&self) -> (style: ScoreStyle)
        ensures
            style == self.score_style(),
    {
        match self {
            GameState::Running => ScoreStyle::BottomRight {
                bottom: 10 * UNITS_PER_PIXEL,
                right: 10 * UNITS_PER_PIXEL,
            },
            GameState::Paused | GameState::Over => ScoreStyle::Centered,
            GameState::Initialized => ScoreStyle::TopLeft {
                top: MAX_SCREEN_HEIGHT / 3,
                left: MAX_SCREEN_WIDTH / 2,
            },
            GameState::Ready => ScoreStyle::Hidden,
        }
    }

    /// Returns the text of the score.
    pub fn get_score_text(&self, score: Score) -> (text: ScoreText)
        ensures
            text.value@ == self.score_text_value(decimal(score.0 as nat)),
            text.style == self.score_text_style(),
    {
        let text_style = self.get_score_text_style();
        let written = score.to_string();
        ScoreText { value: self.get_score_text_value(written.as_str()), style: text_style }
    }
}

impl Default for GameState {
    fn default() -> (state: Self)
        ensures
            state == GameState::Initialized,
    {
        GameState::Initialized
    }
}

} // verus!
