use snake_core::Cell;
use snake_core::Config;
use snake_core::Direction;
use snake_core::GameState;

// A full play-through on a 30-by-30 grid: head starts at (3, 3) moving
// Right, the apple sits at (10, 10), and the step interval is 80_000 time
// units, so every advance of 90_000 performs exactly one movement step.
#[test]
fn thirty_by_thirty_walkthrough() {
    let cfg = Config {
        width: 30,
        height: 30,
        step_interval: 80_000,
        start: Cell::new(3, 3),
        apple_start: Cell::new(10, 10),
    };
    let mut g = GameState::new(cfg);

    for _ in 0..6 {
        g.advance_with_apple(90_000, Cell::new(10, 10));
    }
    assert_eq!(g.head(), Cell::new(9, 3));
    assert_eq!(g.apple(), Cell::new(10, 10));
    // The body trails the head by one historical head position per step:
    // each step drops the tail as it inserts the old head, so without any
    // eating it holds exactly the previous head position.
    assert_eq!(g.body().len(), 1);
    assert_eq!(g.body()[0], Cell::new(8, 3));
    assert!(g.is_alive());

    g.advance_with_apple(90_000, Cell::new(10, 10));
    assert_eq!(g.head(), Cell::new(10, 3));

    // Head and apple share the column but not the row: the eighth call's
    // eating check leaves the state unaffected.
    g.advance_with_apple(90_000, Cell::new(10, 10));
    assert_eq!(g.head(), Cell::new(11, 3));
    assert_eq!(g.apple(), Cell::new(10, 10));
    assert_eq!(g.body().len(), 1);
    assert_eq!(g.body()[0], Cell::new(10, 3));

    // Steer onto the apple: back one column, then down to row 10.
    g.handle_direction_input(Direction::Down);
    for _ in 0..7 {
        g.advance_with_apple(90_000, Cell::new(10, 10));
    }
    assert_eq!(g.head(), Cell::new(11, 10));
    g.handle_direction_input(Direction::Left);
    g.advance_with_apple(90_000, Cell::new(10, 10));
    assert_eq!(g.head(), Cell::new(10, 10));
    assert_eq!(g.body().len(), 1);

    // The next call finds head == apple: growth and relocation happen in
    // that same call.
    g.advance_with_apple(90_000, Cell::new(20, 20));
    assert_eq!(g.body().len(), 2);
    assert_eq!(g.apple(), Cell::new(20, 20));
    assert!(g.is_alive());
}
