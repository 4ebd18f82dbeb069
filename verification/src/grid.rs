use vstd::prelude::*;

verus! {

/// An integer coordinate pair on the playfield grid.
///
/// Playable cells have coordinates `1..=width` and `1..=height`; the
/// coordinates `0`, `width + 1` and `height + 1` are the surrounding wall
/// and are never valid snake or apple positions.
#[derive(Clone, Copy, PartialEq, Eq, Structural, Debug)]
pub struct Cell {
    pub x: u32,
    pub y: u32,
}

impl Cell {
    /// Builds the cell with the given coordinates.
    pub fn new(x: u32, y: u32) -> (c: Cell)
        ensures
            c == (Cell { x, y }),
    {
        Cell { x, y }
    }
}

/// The immutable configuration of a game: playfield bounds, pacing, and
/// the cells where the snake's head and the apple start.
///
/// Time (`step_interval`, and the `dt` arguments of `advance`) is measured
/// in integer time units; the caller picks the unit and uses it
/// consistently, for example microseconds.
#[derive(Clone, Copy, PartialEq, Eq, Structural, Debug)]
pub struct Config {
    /// Number of playable columns; playable x coordinates are `1..=width`.
    pub width: u32,
    /// Number of playable rows; playable y coordinates are `1..=height`.
    pub height: u32,
    /// A movement step occurs once the accumulated elapsed time exceeds
    /// this threshold.
    pub step_interval: u64,
    /// Where the snake's head starts, and returns to on restart.
    pub start: Cell,
    /// Where the apple starts, and returns to on restart.
    pub apple_start: Cell,
}

impl Config {
    /// Whether `c` lies strictly inside the playable bounds.
    pub open spec fn in_bounds(self, c: Cell) -> bool {
        1 <= c.x <= self.width && 1 <= c.y <= self.height
    }

    /// A usable configuration: a non-degenerate grid whose bounds leave
    /// room for the wall coordinates, a step interval below the largest
    /// representable time value, and start cells inside the bounds.
    pub open spec fn wf(self) -> bool {
        &&& 1 <= self.width < u32::MAX
        &&& 1 <= self.height < u32::MAX
        &&& self.step_interval < u64::MAX
        &&& self.in_bounds(self.start)
        &&& self.in_bounds(self.apple_start)
    }

    /// Whether `c` lies strictly inside the playable bounds.
    pub fn contains(&self, c: Cell) -> (b: bool)
        ensures
            b == self.in_bounds(c),
    {
        1 <= c.x && c.x <= self.width && 1 <= c.y && c.y <= self.height
    }

    /// Whether this configuration is usable, as `wf` states.
    pub fn is_valid(&self) -> (b: bool)
        ensures
            b == self.wf(),
    {
        1 <= self.width && self.width < u32::MAX && 1 <= self.height && self.height < u32::MAX
            && self.step_interval < u64::MAX && self.contains(self.start)
            && self.contains(self.apple_start)
    }
}

} // verus!
