use vstd::prelude::*;

use crate::direction::Direction;
use crate::grid::Cell;
use crate::grid::Config;
use crate::rng::random_coordinate;
use std::collections::VecDeque;

verus! {

/// The mathematical view of a game: the snake (head, body, direction,
/// accumulated elapsed time), the apple, and the running/frozen flag.
///
/// The body is ordered neck-to-tail: index 0 is the segment next to the
/// head, the last index is the tail.
#[verifier::ext_equal]
pub struct GameModel {
    pub head: Cell,
    pub body: Seq<Cell>,
    pub direction: Direction,
    pub duration: u64,
    pub apple: Cell,
    pub alive: bool,
}

/// The state of a game right after construction or restart under `cfg`:
/// head at the start cell, empty body, direction Right, no accumulated
/// time, apple at its start cell, running.
pub open spec fn init_model(cfg: Config) -> GameModel {
    GameModel {
        head: cfg.start,
        body: Seq::empty(),
        direction: Direction::Right,
        duration: 0,
        apple: cfg.apple_start,
        alive: true,
    }
}

/// The invariant that every reachable game state keeps under a
/// well-formed configuration: the accumulated time never exceeds the step
/// interval (a step resets it), the apple is always playable, and while
/// the game runs the head is strictly inside the bounds.
pub open spec fn model_wf(cfg: Config, m: GameModel) -> bool {
    &&& m.duration <= cfg.step_interval
    &&& cfg.in_bounds(m.apple)
    &&& m.alive ==> cfg.in_bounds(m.head)
}

/// The cell one step away from `c` in direction `d`.
pub open spec fn moved_cell(c: Cell, d: Direction) -> Cell
    recommends
        1 <= c.x < u32::MAX,
        1 <= c.y < u32::MAX,
{
    match d {
        Direction::Left => Cell { x: (c.x - 1) as u32, y: c.y },
        Direction::Right => Cell { x: (c.x + 1) as u32, y: c.y },
        Direction::Up => Cell { x: c.x, y: (c.y - 1) as u32 },
        Direction::Down => Cell { x: c.x, y: (c.y + 1) as u32 },
    }
}

/// The body after one movement step of a snake whose head stood at
/// `head`: the tail cell is dropped and the old head position is inserted
/// at the front, so the body trails the head by one historical head
/// position per step. An empty body becomes the single cell `head`.
pub open spec fn shifted_body(body: Seq<Cell>, head: Cell) -> Seq<Cell> {
    if body.len() == 0 {
        seq![head]
    } else {
        seq![head] + body.drop_last()
    }
}

/// The eating phase of one `advance` call: if the head sits on the apple,
/// a new segment is inserted at the head's position without removing a
/// tail segment (net length +1) and the apple moves to `new_apple`;
/// otherwise nothing changes. It is evaluated on every call, not gated by
/// the pacing timer.
pub open spec fn eat_phase(m: GameModel, new_apple: Cell) -> GameModel {
    if m.head == m.apple {
        GameModel { body: seq![m.head] + m.body, apple: new_apple, ..m }
    } else {
        m
    }
}

/// One discrete movement step: the body shifts, the head moves one cell
/// in the current direction, the accumulated time resets, and the game
/// stays running iff the new head hits neither the (shifted) body nor the
/// wall.
pub open spec fn step_phase(cfg: Config, m: GameModel) -> GameModel {
    let new_body = shifted_body(m.body, m.head);
    let new_head = moved_cell(m.head, m.direction);
    GameModel {
        head: new_head,
        body: new_body,
        duration: 0,
        alive: !new_body.contains(new_head) && cfg.in_bounds(new_head),
        ..m
    }
}

/// The full transition of one `advance(dt)` call on a running game whose
/// eaten apple, if any, is relocated to `new_apple`: the eating check
/// runs first, then `dt` is added to the accumulated time, and a movement
/// step occurs iff the accumulated time then exceeds the step interval.
/// A frozen game is left unchanged.
pub open spec fn spec_advance(cfg: Config, m: GameModel, dt: u64, new_apple: Cell) -> GameModel
    recommends
        m.duration + dt <= u64::MAX,
{
    if !m.alive {
        m
    } else {
        let m1 = eat_phase(m, new_apple);
        let dur = (m.duration + dt) as u64;
        if dur > cfg.step_interval {
            step_phase(cfg, m1)
        } else {
            GameModel { duration: dur, ..m1 }
        }
    }
}

/// The authoritative state of one game, advanced by the driving loop and
/// read by a renderer through the accessors.
pub struct GameState {
    /// Immutable configuration; only `restart` reads the start cells back.
    pub config: Config,
    /// The snake's leading cell, held apart from the body.
    pub head: Cell,
    /// Trailing segments, neck first, tail last.
    pub body: VecDeque<Cell>,
    /// Current movement direction.
    pub direction: Direction,
    /// Elapsed time accumulated since the last movement step.
    pub duration: u64,
    /// The apple's cell.
    pub apple: Cell,
    /// Running (`true`) or frozen after a fatal collision (`false`).
    pub alive: bool,
}

impl View for GameState {
    type V = GameModel;

    open spec fn view(&self) -> GameModel {
        GameModel {
            head: self.head,
            body: self.body@,
            direction: self.direction,
            duration: self.duration,
            apple: self.apple,
            alive: self.alive,
        }
    }
}

impl GameState {
    /// A well-formed game: a usable configuration and a state that keeps
    /// the reachable-state invariant under it.
    pub open spec fn wf(&self) -> bool {
        &&& self.config.wf()
        &&& model_wf(self.config, self@)
    }

    /// Creates a game in its initial state under `config`.
    pub fn new(config: Config) -> (g: GameState)
        requires
            config.wf(),
        ensures
            g.config == config,
            g@ == init_model(config),
            g.wf(),
    {
        let g = GameState {
            config,
            head: config.start,
            body: VecDeque::new(),
            direction: Direction::Right,
            duration: 0,
            apple: config.apple_start,
            alive: true,
        };
        proof {
            assert(g@ =~= init_model(config));
        }
        g
    }

    /// Sets the movement direction to `requested`, unless `requested` is
    /// the exact opposite of the current direction, in which case the
    /// request is silently ignored: the snake can never reverse into its
    /// own neck in a single update. Callable at any time, including while
    /// frozen; nothing but the direction field changes.
    pub fn handle_direction_input(&mut self, requested: Direction)
        ensures
            final(self).config == old(self).config,
            final(self)@ == (GameModel {
                direction: if requested == old(self).direction.opposite() {
                    old(self).direction
                } else {
                    requested
                },
                ..old(self)@
            }),
            old(self).wf() ==> final(self).wf(),
    {
        if !(requested == self.direction.opposite()) {
            self.direction = requested;
        }
        proof {
            assert(self@ =~= (GameModel {
                direction: self.direction,
                ..old(self)@
            }));
        }
    }

    /// Whether the head currently sits on the apple.
    fn reach_apple(&self) -> (b: bool)
        ensures
            b == (self.head == self.apple),
    {
        self.head == self.apple
    }

    /// Grows the snake by one segment, inserted at the head's current
    /// position without removing a tail segment.
    fn add_tail(&mut self)
        ensures
            *final(self) == (GameState { body: final(self).body, ..*old(self) }),
            final(self).body@ == seq![old(self).head] + old(self).body@,
    {
        self.body.push_front(Cell { x: self.head.x, y: self.head.y });
    }

    /// Performs the movement of one discrete step: shifts the body and
    /// moves the head one cell in the current direction.
    fn proceed(&mut self)
        requires
            old(self).config.wf(),
            old(self).config.in_bounds(old(self).head),
        ensures
            *final(self) == (GameState {
                head: final(self).head,
                body: final(self).body,
                ..*old(self)
            }),
            final(self).body@ == shifted_body(old(self).body@, old(self).head),
            final(self).head == moved_cell(old(self).head, old(self).direction),
    {
        let prev = Cell { x: self.head.x, y: self.head.y };
        let _ = self.body.pop_back();
        self.body.push_front(prev);
        proof {
            if old(self).body@.len() > 0 {
                assert(old(self).body@.subrange(0, old(self).body@.len() - 1)
                    =~= old(self).body@.drop_last());
            }
            assert(self.body@ == shifted_body(old(self).body@, old(self).head));
        }
        match self.direction {
            Direction::Left => {
                self.head.x = self.head.x - 1;
            },
            Direction::Right => {
                self.head.x = self.head.x + 1;
            },
            Direction::Up => {
                self.head.y = self.head.y - 1;
            },
            Direction::Down => {
                self.head.y = self.head.y + 1;
            },
        }
    }

    /// Whether the snake survives at its current position: the head hits
    /// no body segment and lies strictly inside the playable bounds.
    pub fn check_alive(&self) -> (b: bool)
        ensures
            b == (!self.body@.contains(self.head) && self.config.in_bounds(self.head)),
    {
        let n = self.body.len();
        let mut i: usize = 0;
        while i < n
            invariant
                n == self.body@.len(),
                0 <= i <= n,
                forall|k: int| 0 <= k < i ==> self.body@[k] != self.head,
            decreases n - i,
        {
            if self.body[i] == self.head {
                return false;
            }
            i = i + 1;
        }
        self.config.contains(self.head)
    }

    /// The per-tick transition with the relocated apple supplied by the
    /// caller: behaves exactly as `advance`, except that when the apple
    /// is eaten it moves to `new_apple` instead of a randomly drawn cell.
    /// Lets a driver inject a deterministic apple sequence.
    ///
    /// On a frozen game the call changes nothing. On a running game the
    /// eating check runs first (ungated by the pacing timer), `dt` is
    /// accumulated, and a movement step occurs iff the accumulated time
    /// exceeds the step interval, freezing the game on a self- or
    /// wall-collision.
    pub fn advance_with_apple(&mut self, dt: u64, new_apple: Cell)
        requires
            old(self).wf(),
            dt <= u64::MAX - old(self).config.step_interval,
            old(self).config.in_bounds(new_apple),
        ensures
            final(self).config == old(self).config,
            final(self)@ == spec_advance(old(self).config, old(self)@, dt, new_apple),
            final(self).wf(),
    {
        if !self.alive {
            return;
        }
        if self.reach_apple() {
            self.add_tail();
            self.apple = new_apple;
        }
        let ghost m1 = eat_phase(old(self)@, new_apple);
        assert(self@ =~= m1);
        self.duration = self.duration + dt;
        if self.duration > self.config.step_interval {
            self.proceed();
            self.duration = 0;
            self.alive = self.check_alive();
            proof {
                assert(self@ =~= step_phase(old(self).config, m1));
            }
        } else {
            proof {
                assert(self@ =~= (GameModel { duration: self.duration, ..m1 }));
            }
        }
    }

    /// The per-tick transition, called once per frame with the elapsed
    /// time `dt` since the previous call.
    ///
    /// On a frozen game the call changes nothing. On a running game: if
    /// the head sits on the apple, the snake grows by one segment and the
    /// apple is relocated to a cell drawn uniformly at random from the
    /// full playable bounds (cells occupied by the snake are not
    /// excluded); then `dt` is added to the accumulated time, and once
    /// that exceeds the step interval one movement step occurs and the
    /// accumulated time resets, freezing the game if the new head hits
    /// the body or the wall.
    pub fn advance(&mut self, dt: u64)
        requires
            old(self).wf(),
            dt <= u64::MAX - old(self).config.step_interval,
        ensures
            final(self).config == old(self).config,
            exists|a: Cell|
                old(self).config.in_bounds(a) && final(self)@ == spec_advance(
                    old(self).config,
                    old(self)@,
                    dt,
                    a,
                ),
            old(self)@.head != old(self)@.apple ==> final(self)@ == spec_advance(
                old(self).config,
                old(self)@,
                dt,
                old(self)@.apple,
            ),
            !old(self)@.alive ==> final(self)@ == old(self)@,
            final(self).wf(),
    {
        let new_apple = if self.alive && self.reach_apple() {
            random_cell(&self.config)
        } else {
            self.apple
        };
        self.advance_with_apple(dt, new_apple);
    }

    /// Returns the game to exactly its post-construction state: head at
    /// the start cell, empty body, direction Right, accumulated time
    /// zero, apple at its start cell, running again. Idempotent.
    pub fn restart(&mut self)
        requires
            old(self).config.wf(),
        ensures
            final(self).config == old(self).config,
            final(self)@ == init_model(old(self).config),
            final(self).wf(),
    {
        self.head = Cell { x: self.config.start.x, y: self.config.start.y };
        self.body = VecDeque::new();
        self.direction = Direction::Right;
        self.duration = 0;
        self.apple = Cell { x: self.config.apple_start.x, y: self.config.apple_start.y };
        self.alive = true;
        proof {
            assert(self@ =~= init_model(old(self).config));
        }
    }

    /// The snake's current head cell.
    pub fn head(&self) -> (c: Cell)
        ensures
            c == self.head,
    {
        self.head
    }

    /// The snake's trailing segments, neck first, tail last.
    pub fn body(&self) -> (b: &VecDeque<Cell>)
        ensures
            b@ == self@.body,
    {
        &self.body
    }

    /// The apple's current cell.
    pub fn apple(&self) -> (c: Cell)
        ensures
            c == self.apple,
    {
        self.apple
    }

    /// The current movement direction.
    pub fn direction(&self) -> (d: Direction)
        ensures
            d == self.direction,
    {
        self.direction
    }

    /// `true` while the game runs, `false` once it froze after a fatal
    /// collision (awaiting `restart`).
    pub fn is_alive(&self) -> (b: bool)
        ensures
            b == self.alive,
    {
        self.alive
    }

    /// The elapsed time accumulated since the last movement step.
    pub fn duration(&self) -> (d: u64)
        ensures
            d == self.duration,
    {
        self.duration
    }

    /// The configuration the game was created with.
    pub fn config(&self) -> (c: Config)
        ensures
            c == self.config,
    {
        self.config
    }
}

/// Eating is detected independent of the step-interval pacing: an `advance`
/// call on a running game whose head sits on the apple always grows the
/// body by exactly one segment and relocates the apple within that same
/// call, however much or little time has elapsed.
pub proof fn lemma_eating_ungated(cfg: Config, m: GameModel, dt: u64, new_apple: Cell)
    requires
        m.alive,
        m.head == m.apple,
        m.duration + dt <= u64::MAX,
    ensures
        spec_advance(cfg, m, dt, new_apple).apple == new_apple,
        spec_advance(cfg, m, dt, new_apple).body.len() == m.body.len() + 1,
{
}

/// After growth the body is longer by exactly one segment, and the
/// immediately following `advance` call — whether or not it performs a
/// movement step — keeps that length, as long as the apple is not eaten
/// again: the normal tail-drop/head-insert shift preserves the length.
pub proof fn lemma_growth_keeps_length(
    cfg: Config,
    m: GameModel,
    dt1: u64,
    apple1: Cell,
    dt2: u64,
    apple2: Cell,
)
    requires
        m.alive,
        m.head == m.apple,
        m.duration + dt1 <= u64::MAX,
        spec_advance(cfg, m, dt1, apple1).duration + dt2 <= u64::MAX,
        spec_advance(cfg, m, dt1, apple1).head != spec_advance(cfg, m, dt1, apple1).apple,
    ensures
        spec_advance(cfg, m, dt1, apple1).body.len() == m.body.len() + 1,
        spec_advance(cfg, spec_advance(cfg, m, dt1, apple1), dt2, apple2).body.len() == m.body.len()
            + 1,
{
}

/// Self-collision freezes the game: on a running game whose next head
/// position coincides with a cell of the body as it stands after the
/// shift of the movement step, an `advance` call that carries the
/// accumulated time past the step interval leaves the game frozen.
pub proof fn lemma_self_collision(cfg: Config, m: GameModel, dt: u64, new_apple: Cell)
    requires
        m.alive,
        m.head != m.apple,
        m.duration + dt <= u64::MAX,
        m.duration + dt > cfg.step_interval,
        shifted_body(m.body, m.head).contains(moved_cell(m.head, m.direction)),
    ensures
        !spec_advance(cfg, m, dt, new_apple).alive,
{
}

/// Wall-collision freezes the game: on a running game whose next head
/// position lands on the wall — coordinate 0, or `width + 1` or
/// `height + 1`, on either axis — an `advance` call that carries the
/// accumulated time past the step interval leaves the game frozen.
pub proof fn lemma_wall_collision(cfg: Config, m: GameModel, dt: u64, new_apple: Cell)
    requires
        m.alive,
        m.duration + dt <= u64::MAX,
        m.duration + dt > cfg.step_interval,
        moved_cell(m.head, m.direction).x == 0 || moved_cell(m.head, m.direction).x == cfg.width
            + 1 || moved_cell(m.head, m.direction).y == 0 || moved_cell(m.head, m.direction).y
            == cfg.height + 1,
    ensures
        !spec_advance(cfg, m, dt, new_apple).alive,
{
}

/// Draws a cell uniformly at random from the playable bounds of `cfg`;
/// used to relocate the apple after it is eaten.
pub fn random_cell(cfg: &Config) -> (c: Cell)
    requires
        cfg.wf(),
    ensures
        cfg.in_bounds(c),
{
    Cell { x: random_coordinate(1, cfg.width), y: random_coordinate(1, cfg.height) }
}

} // verus!
