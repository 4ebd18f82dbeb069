use snake_core::Cell;
use snake_core::Config;
use snake_core::Direction;
use snake_core::GameState;

fn config() -> Config {
    Config {
        width: 30,
        height: 30,
        step_interval: 80_000,
        start: Cell::new(3, 3),
        apple_start: Cell::new(10, 10),
    }
}

#[test]
fn opposite_pairs() {
    assert_eq!(Direction::Left.opposite(), Direction::Right);
    assert_eq!(Direction::Right.opposite(), Direction::Left);
    assert_eq!(Direction::Up.opposite(), Direction::Down);
    assert_eq!(Direction::Down.opposite(), Direction::Up);
}

#[test]
fn reversal_is_ignored_for_every_direction() {
    let mut g = GameState::new(config());
    assert_eq!(g.direction(), Direction::Right);
    g.handle_direction_input(Direction::Left);
    assert_eq!(g.direction(), Direction::Right);

    g.handle_direction_input(Direction::Up);
    assert_eq!(g.direction(), Direction::Up);
    g.handle_direction_input(Direction::Down);
    assert_eq!(g.direction(), Direction::Up);

    g.handle_direction_input(Direction::Left);
    assert_eq!(g.direction(), Direction::Left);
    g.handle_direction_input(Direction::Right);
    assert_eq!(g.direction(), Direction::Left);

    g.handle_direction_input(Direction::Down);
    assert_eq!(g.direction(), Direction::Down);
    g.handle_direction_input(Direction::Up);
    assert_eq!(g.direction(), Direction::Down);
}

#[test]
fn repeating_the_current_direction_is_a_noop() {
    let mut g = GameState::new(config());
    assert_eq!(g.direction(), Direction::Right);
    g.handle_direction_input(Direction::Right);
    assert_eq!(g.direction(), Direction::Right);
    assert_eq!(g.head(), Cell::new(3, 3));
    assert_eq!(g.duration(), 0);
    assert!(g.is_alive());
}

#[test]
fn direction_input_changes_nothing_but_the_direction() {
    let mut g = GameState::new(config());
    g.advance_with_apple(90_000, Cell::new(10, 10));
    let head = g.head();
    let body: Vec<Cell> = g.body().iter().copied().collect();
    let apple = g.apple();
    g.handle_direction_input(Direction::Up);
    assert_eq!(g.head(), head);
    let body_after: Vec<Cell> = g.body().iter().copied().collect();
    assert_eq!(body_after, body);
    assert_eq!(g.apple(), apple);
    assert!(g.is_alive());
}

#[test]
fn direction_input_while_frozen_is_harmless() {
    let mut g = GameState::new(Config {
        width: 3,
        height: 3,
        step_interval: 80_000,
        start: Cell::new(3, 2),
        apple_start: Cell::new(1, 1),
    });
    g.advance_with_apple(90_000, Cell::new(1, 1));
    assert!(!g.is_alive());
    g.handle_direction_input(Direction::Up);
    assert_eq!(g.direction(), Direction::Up);
    assert!(!g.is_alive());
    let head = g.head();
    g.advance_with_apple(90_000, Cell::new(1, 1));
    assert_eq!(g.head(), head);
    assert!(!g.is_alive());
}
