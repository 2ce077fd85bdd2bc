use snake::components::border::Border;
use snake::geometry::{collide, Dimensions, Position};
use snake::resources::border_set::{collides_with_any, BorderSet};

fn wall(x: i32, y: i32, width: i32, height: i32) -> Border {
    Border { position: Position { x, y }, dimensions: Dimensions { width, height } }
}

fn every_border_set() -> [BorderSet; 4] {
    [BorderSet::Screen, BorderSet::Cross, BorderSet::Horizontal, BorderSet::Vertical]
}

#[test]
fn the_catalogue_lists_the_four_border_sets() {
    assert_eq!(BorderSet::iterator(), every_border_set().to_vec());
}

#[test]
fn border_sets_are_named() {
    assert_eq!(BorderSet::Screen.to_string(), "Screen");
    assert_eq!(BorderSet::Cross.to_string(), "Cross");
    assert_eq!(BorderSet::Horizontal.to_string(), "Horizontal");
    assert_eq!(BorderSet::Vertical.to_string(), "Vertical");
}

#[test]
fn the_screen_set_has_four_walls_on_the_edges() {
    assert_eq!(
        BorderSet::Screen.get_borders(),
        vec![
            wall(0, 2400, 6400, 150),
            wall(0, -2400, 6400, 150),
            wall(3200, 0, 150, 4800),
            wall(-3200, 0, 150, 4800),
        ]
    );
}

#[test]
fn the_other_sets_have_walls_through_the_centre() {
    assert_eq!(BorderSet::Horizontal.get_borders(), vec![wall(0, 0, 6400, 150)]);
    assert_eq!(BorderSet::Vertical.get_borders(), vec![wall(0, 0, 150, 4800)]);
    assert_eq!(
        BorderSet::Cross.get_borders(),
        vec![wall(0, 0, 150, 4800), wall(0, 0, 6400, 150)]
    );
}

#[test]
fn the_snake_starts_away_from_the_walls() {
    assert_eq!(BorderSet::Screen.get_snake_initial_position(), Position { x: 0, y: 0 });
    for set in [BorderSet::Cross, BorderSet::Horizontal, BorderSet::Vertical] {
        assert_eq!(set.get_snake_initial_position(), Position { x: -1500, y: 1500 });
    }
    let head = Dimensions { width: 100, height: 100 };
    for set in every_border_set() {
        let start = set.get_snake_initial_position();
        assert!(!collides_with_any(&set.get_borders(), start, head));
    }
}

#[test]
fn random_bonus_positions_never_overlap_a_wall() {
    let bonus = Dimensions { width: 100, height: 100 };
    for set in every_border_set() {
        let borders = set.get_borders();
        for _ in 0..10_000 {
            let position = set.compute_random_bonus_position();
            assert!(-3200 <= position.x && position.x < 3200);
            assert!(-2400 <= position.y && position.y < 2400);
            for border in &borders {
                assert!(!collide(border.position, border.dimensions, position, bonus));
            }
            assert!(set.is_bonus_position_free(position));
        }
    }
}

#[test]
fn random_bonus_positions_vary() {
    let first = BorderSet::Screen.compute_random_bonus_position();
    let mut differs = false;
    for _ in 0..200 {
        if BorderSet::Screen.compute_random_bonus_position() != first {
            differs = true;
        }
    }
    assert!(differs);
}

#[test]
fn a_position_on_a_wall_is_not_free() {
    assert!(!BorderSet::Cross.is_bonus_position_free(Position { x: 0, y: 1000 }));
    assert!(!BorderSet::Cross.is_bonus_position_free(Position { x: 1000, y: 0 }));
    assert!(!BorderSet::Horizontal.is_bonus_position_free(Position { x: 1000, y: 124 }));
    assert!(BorderSet::Horizontal.is_bonus_position_free(Position { x: 1000, y: 125 }));
    assert!(BorderSet::Horizontal.is_bonus_position_free(Position { x: 0, y: 1000 }));
    assert!(!BorderSet::Vertical.is_bonus_position_free(Position { x: 0, y: 1000 }));
    assert!(!BorderSet::Screen.is_bonus_position_free(Position { x: 0, y: 2300 }));
    assert!(BorderSet::Screen.is_bonus_position_free(Position { x: 0, y: 2275 }));
    assert!(!BorderSet::Screen.is_bonus_position_free(Position { x: 0, y: 2276 }));
}

#[test]
fn a_position_off_the_screen_is_not_free() {
    assert!(!BorderSet::Vertical.is_bonus_position_free(Position { x: 3200, y: 0 }));
    assert!(!BorderSet::Vertical.is_bonus_position_free(Position { x: 1000, y: 2400 }));
    assert!(!BorderSet::Vertical.is_bonus_position_free(Position { x: -3201, y: 0 }));
    assert!(BorderSet::Vertical.is_bonus_position_free(Position { x: -3200, y: -2400 }));
}

#[test]
fn the_spare_position_is_free_in_every_border_set() {
    for set in every_border_set() {
        assert!(set.is_bonus_position_free(Position { x: 1500, y: -1500 }));
    }
}

#[test]
fn a_rectangle_hits_any_of_several_borders() {
    let borders = BorderSet::Screen.get_borders();
    let head = Dimensions { width: 100, height: 100 };
    assert!(collides_with_any(&borders, Position { x: -3100, y: 0 }, head));
    assert!(collides_with_any(&borders, Position { x: 0, y: 2400 }, head));
    assert!(!collides_with_any(&borders, Position { x: 0, y: 0 }, head));
    assert!(!collides_with_any(&Vec::new(), Position { x: 0, y: 0 }, head));
}
