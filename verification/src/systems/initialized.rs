//! The initialized state: the player chooses a border set.

use super::ready::init_game_components;
use crate::components::border::Border;
use crate::geometry::Position;
use crate::input::Interaction;
use crate::resources::border_set::BorderSet;
use crate::resources::game_state::GameState;
use crate::resources::score::Score;
use crate::session::{
    fresh_buttons, BorderSetButton, ButtonColor, ExtraBonusTimer, GameSession, SessionView,
};
use vstd::prelude::*;

verus! {

/// The border set of the first button that has been clicked, if any.
pub open spec fn clicked_border_set(buttons: Seq<BorderSetButton>) -> Option<BorderSet>
    decreases buttons.len(),
{
    if buttons.len() == 0 {
        None
    } else if buttons[0].interaction == Interaction::Clicked {
        Some(buttons[0].border_set)
    } else {
        clicked_border_set(buttons.skip(1))
    }
}

/// The colour of a button after the pointer has done `interaction` to it.
pub open spec fn button_color(interaction: Interaction, color: ButtonColor) -> ButtonColor {
    match interaction {
        Interaction::Clicked => color,
        Interaction::Hovered => ButtonColor::Hovered,
        Interaction::Idle => ButtonColor::Normal,
    }
}

/// The buttons, each in the colour that its interaction gives it.
pub open spec fn recolored(buttons: Seq<BorderSetButton>) -> Seq<BorderSetButton> {
    Seq::new(
        buttons.len(),
        |i: int|
            BorderSetButton {
                color: button_color(buttons[i].interaction, buttons[i].color),
                ..buttons[i]
            },
    )
}

impl SessionView {
    /// The session at the start: nothing is chosen and the buttons are there.
    pub open spec fn initial() -> SessionView {
        SessionView {
            game_state: GameState::Initialized,
            border_set: None,
            score: 0,
            buttons: fresh_buttons(),
            snake: None,
            queue: Seq::empty(),
            normal_bonus: None,
            extra_bonus: None,
            borders: Seq::empty(),
            borders_visible: false,
            timer: 0,
        }
    }

    /// The session once it has entered the ready state with the border set
    /// `set`: the buttons are gone and the field is set up, the first bonus
    /// at `bonus_position`.
    pub open spec fn made_ready(self, set: BorderSet, bonus_position: Position) -> SessionView {
        (SessionView { border_set: Some(set), buttons: Seq::empty(), ..self }).entered(
            GameState::Ready,
        ).components_spawned(bonus_position)
    }

    /// The session once the buttons have been looked at, in the initialized
    /// state: a click on a button picks its border set; without a click the
    /// buttons take the colour that the pointer gives them.
    pub open spec fn chosen(self, bonus_position: Position) -> SessionView {
        if self.game_state != GameState::Initialized {
            self
        } else {
            match clicked_border_set(self.buttons) {
                Some(set) => self.made_ready(set, bonus_position),
                None => SessionView { buttons: recolored(self.buttons), ..self },
            }
        }
    }
}

impl GameSession {
    /// A session at the start of the application: a border set is to be
    /// chosen, and the buttons that offer them are there.
    pub fn new() -> (session: Self)
        ensures
            session@ == SessionView::initial(),
            session@.wf(),
    {
        let mut session = GameSession {
            game_state: GameState::Initialized,
            border_set: None,
            score: Score(0),
            buttons: Vec::new(),
            snake: None,
            queue: Vec::new(),
            normal_bonus: None,
            extra_bonus: None,
            borders: Vec::new(),
            borders_visible: false,
            extra_bonus_timer: ExtraBonusTimer { elapsed: 0 },
        };
        spawn_border_set_buttons(&mut session);
        assert(session@.buttons =~= fresh_buttons());
        assert(session@.queue =~= Seq::<Position>::empty());
        assert(session@.borders =~= Seq::<Border>::empty());
        session
    }
}

/// Spawn the border picker buttons.
pub fn spawn_border_set_buttons(session: &mut GameSession)
    ensures
        final(session)@ == (SessionView {
            buttons: old(session)@.buttons + fresh_buttons(),
            ..old(session)@
        }),
{
    let sets = BorderSet::iterator();
    let mut i: usize = 0;
    while i < sets.len()
        invariant
            i <= sets.len(),
            sets@ == BorderSet::all(),
            session@ == (SessionView {
                buttons: old(session)@.buttons + fresh_buttons().take(i as int),
                ..old(session)@
            }),
        decreases sets.len() - i,
    {
        session.buttons.push(
            BorderSetButton {
                border_set: sets[i],
                interaction: Interaction::Idle,
                color: ButtonColor::Normal,
            },
        );
        i += 1;
        assert(session@.buttons =~= old(session)@.buttons + fresh_buttons().take(i as int));
    }
    assert(fresh_buttons().take(i as int) =~= fresh_buttons());
}

/// Looks for the first clicked button and gives its border set. Without a
/// click every button takes the colour that the pointer gives it.
fn pick_border_set(buttons: &mut Vec<BorderSetButton>) -> (picked: Option<BorderSet>)
    ensures
        picked == clicked_border_set(old(buttons)@),
        picked is None ==> final(buttons)@ == recolored(old(buttons)@),
{
    let mut i: usize = 0;
    assert(buttons@.skip(0) =~= buttons@);
    while i < buttons.len()
        invariant
            i <= buttons.len(),
            buttons.len() == old(buttons).len(),
            clicked_border_set(old(buttons)@) == clicked_border_set(old(buttons)@.skip(i as int)),
            forall|j: int| 0 <= j < i ==> buttons@[j] == recolored(old(buttons)@)[j],
            forall|j: int| i <= j < buttons.len() ==> buttons@[j] == old(buttons)@[j],
        decreases buttons.len() - i,
    {
        let button = buttons[i];
        proof {
            assert(old(buttons)@.skip(i as int).skip(1) =~= old(buttons)@.skip(i + 1));
        }
        match button.interaction {
            Interaction::Clicked => {
                // Each button corresponds to a border set, so the clicked
                // one gives the border set of the playthrough.
                return Some(button.border_set);
            },
            Interaction::Hovered => {
                buttons[i] = BorderSetButton { color: ButtonColor::Hovered, ..button };
            },
            Interaction::Idle => {
                buttons[i] = BorderSetButton { color: ButtonColor::Normal, ..button };
            },
        }
        i += 1;
    }
    assert(buttons@ =~= recolored(old(buttons)@));
    None
}

/// Deletes the buttons, once they aren't useful anymore, and once a border set is picked.
pub fn delete_buttons(session: &mut GameSession)
    ensures
        final(session)@ == (SessionView { buttons: Seq::empty(), ..old(session)@ }),
{
    session.buttons.clear();
}

/// Takes the session into the ready state with the border set `set`.
pub fn enter_ready(session: &mut GameSession, set: BorderSet)
    ensures
        exists|bonus_position: Position|
            #![auto]
            set.is_free_bonus_position(bonus_position)
                && final(session)@ == old(session)@.made_ready(set, bonus_position),
        old(session)@.field_is_empty() && old(session)@.score == 0 ==> final(session)@.wf(),
{
    session.border_set = Some(set);
    delete_buttons(session);
    session.game_state = GameState::Ready;
    session.borders_visible = GameState::Ready.are_borders_visible();
    init_game_components(session);
}

/// The interactions with the button system.
pub fn border_set_choose_system(session: &mut GameSession)
    requires
        old(session)@.wf(),
    ensures
        exists|bonus_position: Position| final(session)@ == old(session)@.chosen(bonus_position),
        final(session)@.wf(),
{
    let ghost before = session@;
    let ghost nowhere = Position { x: 0, y: 0 };
    if session.game_state != GameState::Initialized {
        assert(session@ == before.chosen(nowhere));
        return ;
    }
    match pick_border_set(&mut session.buttons) {
        Some(set) => {
            let ghost picked = session@;
            enter_ready(session, set);
            proof {
                let bonus_position = choose|bonus_position: Position|
                    #![auto]
                    set.is_free_bonus_position(bonus_position) && session@ == picked.made_ready(
                        set,
                        bonus_position,
                    );
                assert(picked.made_ready(set, bonus_position) == before.made_ready(
                    set,
                    bonus_position,
                ));
                assert(session@ == before.chosen(bonus_position));
            }
        },
        None => {
            assert(session@ == before.chosen(nowhere));
        },
    }
}

} // verus!
