//! What the snake runs into, and what follows from it.

use crate::common::{
    BONUS_DIAMETER, CHANCE_OF_EXTRA_BONUS, PERCENT, SCREEN_HEIGHT, SCREEN_WIDTH, SNAKE_SIZE,
};
use crate::components::bonus::Bonus;
use crate::components::border::Border;
use crate::geometry::{collide, overlaps, Dimensions, Position};
use crate::random::gen_ratio;
use crate::resources::border_set::{
    bonus_dimensions, is_free_in, lemma_spare_bonus_position_is_free, BorderSet,
};
use crate::resources::game_state::GameState;
use crate::resources::score::Score;
use crate::session::{snake_dimensions, GameSession, SessionView};
use vstd::prelude::*;

verus! {

/// The event following a conflict of position between the snake and a collider.
#[derive(Debug, Eq, PartialEq, Copy, Clone, Structural)]
pub enum CollisionEvent {
    /// The snake has run into a border.
    Border,
    /// The snake has run into a bonus worth that many points.
    Bonus(u32),
}

/// What chance decides when a collision is handled.
#[derive(Debug, Eq, PartialEq, Copy, Clone, Structural)]
pub struct Draws {
    /// Where the normal bonus goes once it has been eaten.
    pub bonus_position: Position,
    /// Whether an extra bonus comes with the next normal one.
    pub extra_bonus: bool,
    /// Where that extra bonus goes.
    pub extra_bonus_position: Position,
}

impl Default for CollisionEvent {
    fn default() -> (event: Self)
        ensures
            event == CollisionEvent::Border,
    {
        CollisionEvent::Border
    }
}

/// Where a new segment of the queue waits, off the screen, for its first shift.
pub open spec fn spawn_point() -> Position {
    Position { x: SCREEN_WIDTH, y: SCREEN_HEIGHT }
}

/// The event, if any, of a head at `head` and a bonus of kind `kind` that may
/// lie at `bonus`.
pub open spec fn bonus_events(head: Position, bonus: Option<Position>, kind: Bonus) -> Seq<
    CollisionEvent,
> {
    match bonus {
        Some(position) => if overlaps(head, snake_dimensions(), position, bonus_dimensions()) {
            seq![CollisionEvent::Bonus(kind.points())]
        } else {
            Seq::empty()
        },
        None => Seq::empty(),
    }
}

/// One event for each of `borders` that a head at `head` overlaps.
pub open spec fn border_events(head: Position, borders: Seq<Border>) -> Seq<CollisionEvent>
    decreases borders.len(),
{
    if borders.len() == 0 {
        Seq::empty()
    } else {
        let earlier = border_events(head, borders.drop_last());
        if overlaps(head, snake_dimensions(), borders.last().position, borders.last().dimensions) {
            earlier.push(CollisionEvent::Border)
        } else {
            earlier
        }
    }
}

/// The points of `event`, if it is a bonus, can be added to the score of
/// `session`: the sum is a number that the score can hold.
pub open spec fn fits_score(session: SessionView, event: CollisionEvent) -> bool {
    event matches CollisionEvent::Bonus(points) ==> session.score + points <= u32::MAX
}

impl Draws {
    /// Draws that bring no extra bonus and put the normal one at `position`.
    pub open spec fn only(position: Position) -> Draws {
        Draws { bonus_position: position, extra_bonus: false, extra_bonus_position: position }
    }

    /// Both positions are free in the border set of the session.
    pub open spec fn valid_for(self, border_set: Option<BorderSet>) -> bool {
        is_free_in(border_set, self.bonus_position) && is_free_in(
            border_set,
            self.extra_bonus_position,
        )
    }
}

impl SessionView {
    /// The events of this tick, in the order in which the colliders are
    /// looked at: the normal bonus, the extra bonus, then the borders.
    pub open spec fn collisions(self) -> Seq<CollisionEvent> {
        match self.snake {
            Some(snake) => bonus_events(snake.position, self.normal_bonus, Bonus::Normal)
                + bonus_events(snake.position, self.extra_bonus, Bonus::ExtraBonus)
                + border_events(snake.position, self.borders),
            None => Seq::empty(),
        }
    }

    /// The session once `event` has been handled, with what chance decided.
    ///
    /// A bonus grows the queue by one segment for each point and adds the
    /// points to the score. The normal bonus, worth one point, moves to
    /// another place, and may bring an extra bonus with it if there is none;
    /// the extra bonus, worth five, is gone. A border ends the playthrough.
    pub open spec fn collided(self, event: CollisionEvent, draws: Draws) -> SessionView {
        match event {
            CollisionEvent::Bonus(points) => {
                let normal_hit = points == Bonus::Normal.points();
                let extra_hit = points == Bonus::ExtraBonus.points();
                let extra_spawns = normal_hit && self.extra_bonus is None && draws.extra_bonus;
                SessionView {
                    queue: self.queue + Seq::new(points as nat, |i: int| spawn_point()),
                    score: (self.score + points) as u32,
                    normal_bonus: if normal_hit && self.normal_bonus is Some {
                        Some(draws.bonus_position)
                    } else {
                        self.normal_bonus
                    },
                    extra_bonus: if extra_hit {
                        None
                    } else if extra_spawns {
                        Some(draws.extra_bonus_position)
                    } else {
                        self.extra_bonus
                    },
                    timer: if (extra_hit && self.extra_bonus is Some) || extra_spawns {
                        0
                    } else {
                        self.timer
                    },
                    ..self
                }
            },
            CollisionEvent::Border => (SessionView {
                snake: None,
                queue: Seq::empty(),
                normal_bonus: None,
                extra_bonus: None,
                borders: Seq::empty(),
                timer: 0,
                ..self
            }).entered(GameState::Over),
        }
    }

    /// The session once the first of `events`, if there is one, has been handled.
    pub open spec fn first_collided(self, events: Seq<CollisionEvent>, draws: Draws) -> SessionView {
        if events.len() > 0 {
            self.collided(events[0], draws)
        } else {
            self
        }
    }
}

/// Check whether the snake has collided anything, a bonus or a border.
pub fn check_collisions(session: &GameSession) -> (events: Vec<CollisionEvent>)
    ensures
        events@ == session@.collisions(),
{
    let mut events: Vec<CollisionEvent> = Vec::new();
    let snake = match session.snake {
        Some(snake) => snake,
        None => {
            assert(events@ =~= session@.collisions());
            return events;
        },
    };
    let snake_position = snake.position;
    let snake_size = Dimensions { width: SNAKE_SIZE, height: SNAKE_SIZE };
    let bonus_size = Dimensions { width: BONUS_DIAMETER, height: BONUS_DIAMETER };
    if let Some(position) = session.normal_bonus {
        if collide(snake_position, snake_size, position, bonus_size) {
            events.push(CollisionEvent::Bonus(Bonus::Normal.get_points()));
        }
    }
    assert(events@ =~= bonus_events(snake_position, session.normal_bonus, Bonus::Normal));
    if let Some(position) = session.extra_bonus {
        if collide(snake_position, snake_size, position, bonus_size) {
            events.push(CollisionEvent::Bonus(Bonus::ExtraBonus.get_points()));
        }
    }
    let ghost bonuses = events@;
    assert(bonuses =~= bonus_events(snake_position, session.normal_bonus, Bonus::Normal)
        + bonus_events(snake_position, session.extra_bonus, Bonus::ExtraBonus));
    let mut i: usize = 0;
    assert(session.borders@.take(0) =~= Seq::<Border>::empty());
    while i < session.borders.len()
        invariant
            i <= session.borders.len(),
            snake_size == snake_dimensions(),
            events@ == bonuses + border_events(snake_position, session.borders@.take(i as int)),
        decreases session.borders.len() - i,
    {
        let border = session.borders[i];
        proof {
            let next = session.borders@.take(i + 1);
            assert(next.drop_last() =~= session.borders@.take(i as int));
            assert(next.last() == border);
        }
        if collide(snake_position, snake_size, border.position, border.dimensions) {
            // If the collider isn't a bonus, it is a border.
            events.push(CollisionEvent::Border);
        }
        i += 1;
        assert(events@ =~= bonuses + border_events(
            snake_position,
            session.borders@.take(i as int),
        ));
    }
    assert(session.borders@.take(i as int) =~= session.borders@);
    events
}

/// Adds `points` segments at the end of `queue`, off the screen.
fn grow_queue(queue: &mut Vec<Position>, points: u32)
    ensures
        final(queue)@ == old(queue)@ + Seq::new(points as nat, |i: int| spawn_point()),
{
    let mut spawned: u32 = 0;
    while spawned < points
        invariant
            spawned <= points,
            queue@ == old(queue)@ + Seq::new(spawned as nat, |i: int| spawn_point()),
        decreases points - spawned,
    {
        // The queue is spawned out of the screen, and then moved
        // by the systems.
        queue.push(Position { x: SCREEN_WIDTH, y: SCREEN_HEIGHT });
        spawned += 1;
        assert(queue@ =~= old(queue)@ + Seq::new(spawned as nat, |i: int| spawn_point()));
    }
}

/// Handles one collision event, given what chance has decided.
pub fn handle_collision(session: &mut GameSession, event: CollisionEvent, draws: Draws)
    requires
        fits_score(old(session)@, event),
    ensures
        final(session)@ == old(session)@.collided(event, draws),
{
    match event {
        // If a bonus is collided, we increase the length of the queue, and
        // others subsequent actions.
        CollisionEvent::Bonus(points) => {
            grow_queue(&mut session.queue, points);
            session.score = Score(session.score.0 + points);
            let normal_hit = points == Bonus::Normal.get_points();
            let extra_hit = points == Bonus::ExtraBonus.get_points();
            let extra_bonus_exists = session.extra_bonus.is_some();
            // Change its position if it a normal one that has been touched.
            if normal_hit && session.normal_bonus.is_some() {
                session.normal_bonus = Some(draws.bonus_position);
            }
            // Despawn it if it is an extra bonus.
            if extra_hit && extra_bonus_exists {
                session.extra_bonus_timer.reset();
                session.extra_bonus = None;
            }
            // If no extra bonus has been touched and none are on screen atm, the dice decide.
            if normal_hit && !extra_bonus_exists && draws.extra_bonus {
                session.extra_bonus = Some(draws.extra_bonus_position);
                session.extra_bonus_timer.reset();
            }
        },
        // If a border is collided, we despawn all the game components
        CollisionEvent::Border => {
            session.snake = None;
            session.normal_bonus = None;
            session.extra_bonus = None;
            session.queue.clear();
            session.borders.clear();
            session.extra_bonus_timer.reset();
            session.game_state = GameState::Over;
            session.borders_visible = GameState::Over.are_borders_visible();
        },
    }
}

/// Draws what the handling of `event` needs from chance, and nothing more:
/// a place for the normal bonus if it has been eaten, and then, if there is
/// no extra bonus, whether one comes and where.
fn draw_for(set: BorderSet, event: CollisionEvent, extra_bonus_exists: bool) -> (draws: Draws)
    ensures
        draws.valid_for(Some(set)),
{
    let spare = set.get_spare_bonus_position();
    let normal_hit = match event {
        CollisionEvent::Bonus(points) => points == Bonus::Normal.get_points(),
        CollisionEvent::Border => false,
    };
    if !normal_hit {
        return Draws { bonus_position: spare, extra_bonus: false, extra_bonus_position: spare };
    }
    let bonus_position = set.compute_random_bonus_position();
    let extra_bonus = !extra_bonus_exists && gen_ratio(CHANCE_OF_EXTRA_BONUS, PERCENT);
    let extra_bonus_position = if extra_bonus {
        set.compute_random_bonus_position()
    } else {
        spare
    };
    Draws { bonus_position, extra_bonus, extra_bonus_position }
}

/// Every collision event handling: while the game is running, the first of
/// `events` is handled and the others are dropped.
pub fn collision_handler(session: &mut GameSession, events: &Vec<CollisionEvent>)
    requires
        old(session)@.wf(),
        events@.len() > 0 ==> fits_score(old(session)@, events@[0]),
    ensures
        old(session)@.game_state != GameState::Running ==> final(session)@ == old(session)@,
        old(session)@.game_state == GameState::Running ==> exists|draws: Draws|
            #![auto]
            draws.valid_for(old(session)@.border_set)
                && final(session)@ == old(session)@.first_collided(events@, draws),
        final(session)@.wf(),
{
    if session.game_state != GameState::Running {
        return ;
    }
    let set = match session.border_set {
        Some(set) => set,
        None => {
            return ;
        },
    };
    if events.len() == 0 {
        proof {
            let idle = Draws::only(set.spare_bonus_position());
            lemma_spare_bonus_position_is_free(set);
            assert(idle.valid_for(session@.border_set));
            assert(session@ == old(session)@.first_collided(events@, idle));
        }
        return ;
    }
    let event = events[0];
    let draws = draw_for(set, event, session.extra_bonus.is_some());
    handle_collision(session, event, draws);
    assert(draws.valid_for(old(session)@.border_set));
    assert(session@ == old(session)@.first_collided(events@, draws));
}

} // verus!
