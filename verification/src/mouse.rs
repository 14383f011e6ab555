//! The move executor: a kinematic state machine that animates a queue of
//! discrete moves as continuous position and heading offsets over time, and
//! that consults the navigation engine once its queue drains.
//!
//! Lengths are measured in thousandths of a cell and angles in thousandths
//! of a degree, so one cell ahead is `CELL_SIZE_UNITS` and a quarter turn is
//! `QUARTER_TURN_UNITS`; time advances in whole milliseconds.

use vstd::prelude::*;

use crate::navigate::Inteligate;
use crate::navigate::navigate_moves_list;
use crate::navigate::navigate_next;
use crate::navigate::navigate_requires;
use crate::plan::Move;
use crate::plan::MoveOptions;

verus! {

/// One cell length, in position units.
pub const CELL_SIZE_UNITS: i32 = 1000;

/// A quarter turn, in angle units.
pub const QUARTER_TURN_UNITS: i32 = 90000;

/// A half turn, in angle units.
pub const HALF_TURN_UNITS: i32 = 180000;

/// Linear speed: four cells per second, as position units per millisecond.
pub const LINEAR_SPEED_PER_MS: i32 = 4;

/// Angular speed: eight quarter turns per second, as angle units per
/// millisecond.
pub const TURN_SPEED_PER_MS: i32 = 720;

/// Largest accepted time step for one tick, in milliseconds.
pub const MAX_TICK_MS: u32 = 1000000;

/// The robot's absolute compass orientation in the simulated world.
#[derive(Copy, Clone, Debug, PartialEq, Eq, Structural)]
pub enum Direction {
    North,
    South,
    West,
    East,
}

/// Counter-clockwise quarter rotation.
pub open spec fn dir_left(d: Direction) -> Direction {
    match d {
        Direction::North => Direction::West,
        Direction::West => Direction::South,
        Direction::South => Direction::East,
        Direction::East => Direction::North,
    }
}

/// Clockwise quarter rotation.
pub open spec fn dir_right(d: Direction) -> Direction {
    match d {
        Direction::North => Direction::East,
        Direction::East => Direction::South,
        Direction::South => Direction::West,
        Direction::West => Direction::North,
    }
}

/// Half rotation: north and south swap, east and west swap.
pub open spec fn dir_around(d: Direction) -> Direction {
    match d {
        Direction::North => Direction::South,
        Direction::East => Direction::West,
        Direction::South => Direction::North,
        Direction::West => Direction::East,
    }
}

/// A half rotation is self-inverse and equals two quarter rotations in
/// either sense.
pub proof fn lemma_dir_around_involution(d: Direction)
    ensures
        dir_around(dir_around(d)) == d,
        dir_around(d) == dir_right(dir_right(d)),
        dir_around(d) == dir_left(dir_left(d)),
{
}

/// World rotation of a heading, in angle units: north is zero and the angle
/// grows counter-clockwise.
pub open spec fn dir_rotation_units(d: Direction) -> i32 {
    match d {
        Direction::North => 0,
        Direction::East => 270000,
        Direction::South => 180000,
        Direction::West => 90000,
    }
}

/// One quarter rotation in the given sense.
pub open spec fn rotate_once(d: Direction, clockwise: bool) -> Direction {
    if clockwise {
        dir_right(d)
    } else {
        dir_left(d)
    }
}

/// `n` quarter rotations in the given sense.
pub open spec fn rotate_times(d: Direction, clockwise: bool, n: nat) -> Direction
    decreases n,
{
    if n == 0 {
        d
    } else {
        rotate_once(rotate_times(d, clockwise, (n - 1) as nat), clockwise)
    }
}

impl Direction {
    /// Rotate one quarter turn counter-clockwise.
    pub fn turn_left(&mut self)
        ensures
            *final(self) == dir_left(*old(self)),
    {
        *self = match *self {
            Direction::North => Direction::West,
            Direction::West => Direction::South,
            Direction::South => Direction::East,
            Direction::East => Direction::North,
        }
    }

    /// Rotate one quarter turn clockwise.
    pub fn turn_right(&mut self)
        ensures
            *final(self) == dir_right(*old(self)),
    {
        *self = match *self {
            Direction::North => Direction::East,
            Direction::East => Direction::South,
            Direction::South => Direction::West,
            Direction::West => Direction::North,
        }
    }

    /// Rotate a half turn.
    pub fn turn_around(&mut self)
        ensures
            *final(self) == dir_around(*old(self)),
    {
        *self = match *self {
            Direction::North => Direction::South,
            Direction::East => Direction::West,
            Direction::South => Direction::North,
            Direction::West => Direction::East,
        }
    }

    /// World rotation of this heading, in angle units.
    pub fn rotation(&self) -> (r: i32)
        ensures
            r == dir_rotation_units(*self),
    {
        match self {
            Direction::North => 0,
            Direction::East => 270000,
            Direction::South => 180000,
            Direction::West => 90000,
        }
    }
}

/// The executor's kinematic state: idle between moves, driving towards a
/// linear target, or rotating towards an angular target; each moving state
/// carries its target and the progress accumulated so far.
#[derive(Copy, Clone, Debug, PartialEq, Eq, Structural)]
pub enum MouseState {
    MoveLinear(i32, i32),
    MoveTurn(i32, i32),
    Decision,
}

/// Openness of the four absolute-direction edges of every cell of the
/// 16-by-16 maze, indexed by column then row.
#[derive(Copy, Clone)]
pub struct MazeEdges {
    pub north: [[bool; 16]; 16],
    pub south: [[bool; 16]; 16],
    pub east: [[bool; 16]; 16],
    pub west: [[bool; 16]; 16],
}

impl MazeEdges {
    /// A maze with every edge closed.
    pub fn new_closed() -> (m: MazeEdges)
        ensures
            forall|x: int, y: int|
                0 <= x < 16 && 0 <= y < 16 ==> !(#[trigger] m.north[x][y]) && !(#[trigger] m.south[x][y])
                    && !(#[trigger] m.east[x][y]) && !(#[trigger] m.west[x][y]),
    {
        MazeEdges {
            north: [[false; 16]; 16],
            south: [[false; 16]; 16],
            east: [[false; 16]; 16],
            west: [[false; 16]; 16],
        }
    }

    /// Set the four edge flags of one cell.
    pub fn set_cell_edges(
        &mut self,
        x: usize,
        y: usize,
        north: bool,
        south: bool,
        east: bool,
        west: bool,
    )
        requires
            x < 16,
            y < 16,
        ensures
            final(self).north == vstd::array::spec_array_update(
                old(self).north,
                x as int,
                vstd::array::spec_array_update(old(self).north[x as int], y as int, north),
            ),
            final(self).south == vstd::array::spec_array_update(
                old(self).south,
                x as int,
                vstd::array::spec_array_update(old(self).south[x as int], y as int, south),
            ),
            final(self).east == vstd::array::spec_array_update(
                old(self).east,
                x as int,
                vstd::array::spec_array_update(old(self).east[x as int], y as int, east),
            ),
            final(self).west == vstd::array::spec_array_update(
                old(self).west,
                x as int,
                vstd::array::spec_array_update(old(self).west[x as int], y as int, west),
            ),
    {
        let mut column: [bool; 16] = self.north[x];
        column[y] = north;
        self.north[x] = column;
        let mut column: [bool; 16] = self.south[x];
        column[y] = south;
        self.south[x] = column;
        let mut column: [bool; 16] = self.east[x];
        column[y] = east;
        self.east[x] = column;
        let mut column: [bool; 16] = self.west[x];
        column[y] = west;
        self.west[x] = column;
        proof {
            assert(self.north =~= vstd::array::spec_array_update(
                old(self).north,
                x as int,
                vstd::array::spec_array_update(old(self).north[x as int], y as int, north),
            ));
            assert(self.south =~= vstd::array::spec_array_update(
                old(self).south,
                x as int,
                vstd::array::spec_array_update(old(self).south[x as int], y as int, south),
            ));
            assert(self.east =~= vstd::array::spec_array_update(
                old(self).east,
                x as int,
                vstd::array::spec_array_update(old(self).east[x as int], y as int, east),
            ));
            assert(self.west =~= vstd::array::spec_array_update(
                old(self).west,
                x as int,
                vstd::array::spec_array_update(old(self).west[x as int], y as int, west),
            ));
        }
    }
}

/// The absolute direction whose edge lies to the left of the given heading.
pub open spec fn left_abs(d: Direction) -> Direction {
    match d {
        Direction::North => Direction::West,
        Direction::South => Direction::East,
        Direction::East => Direction::North,
        Direction::West => Direction::South,
    }
}

/// The absolute direction whose edge lies to the right of the given heading.
pub open spec fn right_abs(d: Direction) -> Direction {
    match d {
        Direction::North => Direction::East,
        Direction::South => Direction::West,
        Direction::East => Direction::South,
        Direction::West => Direction::North,
    }
}

/// The edge flag of one cell in one absolute direction.
pub open spec fn edge_flag(edges: MazeEdges, d: Direction, x: int, y: int) -> bool {
    match d {
        Direction::North => edges.north[x][y],
        Direction::South => edges.south[x][y],
        Direction::East => edges.east[x][y],
        Direction::West => edges.west[x][y],
    }
}

/// The executor's state as a mathematical value: every field of the mouse,
/// with the pending move queue as a sequence.
#[verifier::ext_equal]
pub struct MouseModel {
    pub local_x: i32,
    pub local_y: i32,
    pub cell_x: usize,
    pub cell_y: usize,
    pub local_direction: i32,
    pub direction: Direction,
    pub state: MouseState,
    pub paused: bool,
    pub moves: Seq<Move>,
    pub edges: MazeEdges,
    pub nav: Inteligate,
}

/// The simulated mouse: continuous in-cell offsets, discrete grid position
/// and heading, the kinematic state, the pending move queue, the maze edge
/// model it senses, and the navigation engine it consults.
pub struct Mouse {
    pub local_x: i32,
    pub local_y: i32,
    pub cell_x: usize,
    pub cell_y: usize,
    pub local_direction: i32,
    pub direction: Direction,
    pub state: MouseState,
    pub paused: bool,
    pub moves: Vec<Move>,
    pub edges: MazeEdges,
    pub nav: Inteligate,
}

impl View for Mouse {
    type V = MouseModel;

    open spec fn view(&self) -> MouseModel {
        MouseModel {
            local_x: self.local_x,
            local_y: self.local_y,
            cell_x: self.cell_x,
            cell_y: self.cell_y,
            local_direction: self.local_direction,
            direction: self.direction,
            state: self.state,
            paused: self.paused,
            moves: self.moves@,
            edges: self.edges,
            nav: self.nav,
        }
    }
}

/// The move options sensed at the current cell: the front, left and right
/// edges mapped by the current heading to absolute grid directions.
pub open spec fn sensed_options_spec(m: MouseModel) -> MoveOptions {
    MoveOptions {
        forward: edge_flag(m.edges, m.direction, m.cell_x as int, m.cell_y as int),
        left: edge_flag(m.edges, left_abs(m.direction), m.cell_x as int, m.cell_y as int),
        right: edge_flag(m.edges, right_abs(m.direction), m.cell_x as int, m.cell_y as int),
    }
}

/// The moving state entered when a move is taken off the queue.
pub open spec fn state_for_move(m: Move) -> MouseState {
    match m {
        Move::Forward => MouseState::MoveLinear(CELL_SIZE_UNITS, 0),
        Move::TurnLeft => MouseState::MoveTurn((-QUARTER_TURN_UNITS) as i32, 0),
        Move::TurnRight => MouseState::MoveTurn(QUARTER_TURN_UNITS, 0),
        Move::TurnAround => MouseState::MoveTurn(HALF_TURN_UNITS, 0),
    }
}

/// Absolute value.
pub open spec fn abs_int(v: int) -> int {
    if v >= 0 {
        v
    } else {
        -v
    }
}

/// Progress gained in one tick, signed towards the target.
pub open spec fn signed_step(target: i32, speed: int, dt: int) -> int {
    if target > 0 {
        speed * dt
    } else {
        -(speed * dt)
    }
}

/// One decision tick: dequeue the next pending move and enter its moving
/// state; with an empty queue, sense the edges, consult the navigation
/// engine, enqueue what it produced in order, and dequeue likewise — or
/// remain idle when it produced nothing.
pub open spec fn decision_next(m: MouseModel) -> MouseModel {
    if m.moves.len() > 0 {
        MouseModel { moves: m.moves.drop_last(), state: state_for_move(m.moves.last()), ..m }
    } else {
        let opts = sensed_options_spec(m);
        let nav2 = navigate_next(m.nav, opts);
        let q = navigate_moves_list(m.nav, opts).reverse();
        if q.len() > 0 {
            MouseModel {
                nav: nav2,
                moves: q.drop_last(),
                state: state_for_move(q.last()),
                ..m
            }
        } else {
            MouseModel { nav: nav2, moves: q, ..m }
        }
    }
}

/// One linear tick: advance the progress; under the target, mirror it into
/// the continuous in-cell offset along the heading axis; on overshoot,
/// commit the rounded whole-cell displacement along the heading, reset the
/// continuous offsets and return to the decision state.
pub open spec fn linear_next(m: MouseModel, target: i32, value: i32, dt: int) -> MouseModel {
    let nv = value + signed_step(target, LINEAR_SPEED_PER_MS as int, dt);
    if abs_int(nv) > abs_int(target as int) {
        let cells = (abs_int(target as int) + CELL_SIZE_UNITS / 2) / (CELL_SIZE_UNITS as int);
        let moved = match m.direction {
            Direction::North => MouseModel { cell_y: (m.cell_y + cells) as usize, ..m },
            Direction::South => MouseModel { cell_y: (m.cell_y - cells) as usize, ..m },
            Direction::East => MouseModel { cell_x: (m.cell_x + cells) as usize, ..m },
            Direction::West => MouseModel { cell_x: (m.cell_x - cells) as usize, ..m },
        };
        MouseModel { local_x: 0, local_y: 0, state: MouseState::Decision, ..moved }
    } else {
        let slid = match m.direction {
            Direction::North => MouseModel { local_y: nv as i32, ..m },
            Direction::South => MouseModel { local_y: (-nv) as i32, ..m },
            Direction::East => MouseModel { local_x: nv as i32, ..m },
            Direction::West => MouseModel { local_x: (-nv) as i32, ..m },
        };
        MouseModel { state: MouseState::MoveLinear(target, nv as i32), ..slid }
    }
}

/// One turning tick: advance the angular progress; under the target, mirror
/// it into the continuous sub-turn offset; on overshoot, commit the rounded
/// whole number of quarter rotations in the target's sense, reset the
/// offset and return to the decision state.
pub open spec fn turn_next(m: MouseModel, target: i32, value: i32, dt: int) -> MouseModel {
    let nv = value + signed_step(target, TURN_SPEED_PER_MS as int, dt);
    if abs_int(nv) > abs_int(target as int) {
        let turns = (abs_int(target as int) + QUARTER_TURN_UNITS / 2) / (QUARTER_TURN_UNITS as int);
        MouseModel {
            direction: rotate_times(m.direction, target > 0, turns as nat),
            local_direction: 0,
            state: MouseState::Decision,
            ..m
        }
    } else {
        MouseModel {
            local_direction: nv as i32,
            state: MouseState::MoveTurn(target, nv as i32),
            ..m
        }
    }
}

/// One tick of the executor: nothing while paused, otherwise the transition
/// of the current kinematic state.
pub open spec fn run_next(m: MouseModel, dt: u32) -> MouseModel {
    if m.paused {
        m
    } else {
        match m.state {
            MouseState::Decision => decision_next(m),
            MouseState::MoveLinear(t, v) => linear_next(m, t, v, dt as int),
            MouseState::MoveTurn(t, v) => turn_next(m, t, v, dt as int),
        }
    }
}

/// The kinematic state is canonical: a linear target is exactly one cell
/// ahead, an angular target is a quarter turn either way or a half turn,
/// and the accumulated progress never exceeds its target.
pub open spec fn state_wf(m: MouseModel) -> bool {
    match m.state {
        MouseState::Decision => true,
        MouseState::MoveLinear(t, v) => t == CELL_SIZE_UNITS && 0 <= v <= t,
        MouseState::MoveTurn(t, v) => (t == QUARTER_TURN_UNITS || t == -QUARTER_TURN_UNITS || t
            == HALF_TURN_UNITS) && (if t > 0 {
            0 <= v <= t
        } else {
            t <= v <= 0
        }),
    }
}

/// The discrete grid position lies inside the 16-by-16 maze.
pub open spec fn pos_wf(m: MouseModel) -> bool {
    m.cell_x < 16 && m.cell_y < 16
}

/// The continuous offsets stay within one cell length and one half turn.
pub open spec fn locals_wf(m: MouseModel) -> bool {
    &&& -CELL_SIZE_UNITS <= m.local_x <= CELL_SIZE_UNITS
    &&& -CELL_SIZE_UNITS <= m.local_y <= CELL_SIZE_UNITS
    &&& -HALF_TURN_UNITS <= m.local_direction <= HALF_TURN_UNITS
}

/// Well-formedness of an executor state.
pub open spec fn mouse_wf(m: MouseModel) -> bool {
    state_wf(m) && pos_wf(m) && locals_wf(m)
}

/// A pending forward drive has its destination cell inside the maze.
pub open spec fn linear_dest_ok(m: MouseModel) -> bool {
    (m.state is MoveLinear) ==> match m.direction {
        Direction::North => m.cell_y < 15,
        Direction::South => m.cell_y >= 1,
        Direction::East => m.cell_x < 15,
        Direction::West => m.cell_x >= 1,
    }
}

/// When this tick will consult the navigation engine, the engine accepts
/// the call in its current state.
pub open spec fn nav_call_ok(m: MouseModel) -> bool {
    (m.state is Decision && m.moves.len() == 0 && !m.paused) ==> navigate_requires(
        m.nav,
        sensed_options_spec(m),
    )
}

/// While the accumulated forward progress stays within one cell length, a
/// tick changes neither the discrete grid position nor the heading nor the
/// queue: only the continuous offset and the progress value advance.
pub proof fn lemma_linear_progress_keeps_cell(m: MouseModel, target: i32, value: i32, dt: u32)
    requires
        !m.paused,
        m.state == MouseState::MoveLinear(target, value),
        mouse_wf(m),
        abs_int(value + signed_step(target, LINEAR_SPEED_PER_MS as int, dt as int)) <= target,
    ensures
        ({
            let m2 = run_next(m, dt);
            &&& m2.cell_x == m.cell_x
            &&& m2.cell_y == m.cell_y
            &&& m2.direction == m.direction
            &&& m2.moves == m.moves
            &&& m2.state == MouseState::MoveLinear(
                target,
                (value + signed_step(target, LINEAR_SPEED_PER_MS as int, dt as int)) as i32,
            )
        }),
{
}

/// Kinematic round-trip, committing tick: when the accumulated linear
/// progress first exceeds one cell length, the mouse gains exactly one cell
/// of discrete displacement along its current heading, both continuous
/// offsets reset to zero, and the executor returns to the decision state.
pub proof fn lemma_linear_commit(m: MouseModel, target: i32, value: i32, dt: u32)
    requires
        !m.paused,
        m.state == MouseState::MoveLinear(target, value),
        mouse_wf(m),
        linear_dest_ok(m),
        abs_int(value + signed_step(target, LINEAR_SPEED_PER_MS as int, dt as int)) > target,
    ensures
        ({
            let m2 = run_next(m, dt);
            &&& m2.state == MouseState::Decision
            &&& m2.local_x == 0
            &&& m2.local_y == 0
            &&& m2.direction == m.direction
            &&& m2.moves == m.moves
            &&& match m.direction {
                Direction::North => m2.cell_y == m.cell_y + 1 && m2.cell_x == m.cell_x,
                Direction::South => m2.cell_y == m.cell_y - 1 && m2.cell_x == m.cell_x,
                Direction::East => m2.cell_x == m.cell_x + 1 && m2.cell_y == m.cell_y,
                Direction::West => m2.cell_x == m.cell_x - 1 && m2.cell_y == m.cell_y,
            }
        }),
{
}

/// While the accumulated angular progress stays within the target, a tick
/// changes neither the heading nor the grid position: only the continuous
/// sub-turn offset and the progress value advance.
pub proof fn lemma_turn_progress_keeps_direction(m: MouseModel, target: i32, value: i32, dt: u32)
    requires
        !m.paused,
        m.state == MouseState::MoveTurn(target, value),
        mouse_wf(m),
        abs_int(value + signed_step(target, TURN_SPEED_PER_MS as int, dt as int)) <= abs_int(
            target as int,
        ),
    ensures
        ({
            let m2 = run_next(m, dt);
            &&& m2.direction == m.direction
            &&& m2.cell_x == m.cell_x
            &&& m2.cell_y == m.cell_y
            &&& m2.moves == m.moves
            &&& m2.state == MouseState::MoveTurn(
                target,
                (value + signed_step(target, TURN_SPEED_PER_MS as int, dt as int)) as i32,
            )
        }),
{
}

/// Turning round-trip, committing tick of a left quarter turn: when the
/// accumulated angular progress first exceeds the quarter-turn target, the
/// heading rotates exactly one step counter-clockwise — through the cycle
/// north, west, south, east — the continuous offset resets to zero, and the
/// executor returns to the decision state with its grid position unchanged.
pub proof fn lemma_turn_left_commit(m: MouseModel, value: i32, dt: u32)
    requires
        !m.paused,
        m.state == MouseState::MoveTurn((-QUARTER_TURN_UNITS) as i32, value),
        mouse_wf(m),
        abs_int(value + signed_step(
            (-QUARTER_TURN_UNITS) as i32,
            TURN_SPEED_PER_MS as int,
            dt as int,
        )) > QUARTER_TURN_UNITS,
    ensures
        ({
            let m2 = run_next(m, dt);
            &&& m2.direction == dir_left(m.direction)
            &&& m2.local_direction == 0
            &&& m2.state == MouseState::Decision
            &&& m2.cell_x == m.cell_x
            &&& m2.cell_y == m.cell_y
        }),
{
    assert(rotate_times(m.direction, false, 0nat) == m.direction);
    assert(rotate_times(m.direction, false, 1nat) == dir_left(m.direction));
}

/// Committing tick of a right quarter turn: one step clockwise.
pub proof fn lemma_turn_right_commit(m: MouseModel, value: i32, dt: u32)
    requires
        !m.paused,
        m.state == MouseState::MoveTurn(QUARTER_TURN_UNITS, value),
        mouse_wf(m),
        abs_int(value + signed_step(QUARTER_TURN_UNITS, TURN_SPEED_PER_MS as int, dt as int))
            > QUARTER_TURN_UNITS,
    ensures
        ({
            let m2 = run_next(m, dt);
            &&& m2.direction == dir_right(m.direction)
            &&& m2.local_direction == 0
            &&& m2.state == MouseState::Decision
        }),
{
    assert(rotate_times(m.direction, true, 0nat) == m.direction);
    assert(rotate_times(m.direction, true, 1nat) == dir_right(m.direction));
}

/// Committing tick of a half turn: the executor realises it as two
/// clockwise quarter rotations, which amount to the half rotation of the
/// heading.
pub proof fn lemma_turn_around_commit(m: MouseModel, value: i32, dt: u32)
    requires
        !m.paused,
        m.state == MouseState::MoveTurn(HALF_TURN_UNITS, value),
        mouse_wf(m),
        abs_int(value + signed_step(HALF_TURN_UNITS, TURN_SPEED_PER_MS as int, dt as int))
            > HALF_TURN_UNITS,
    ensures
        ({
            let m2 = run_next(m, dt);
            &&& m2.direction == dir_around(m.direction)
            &&& m2.local_direction == 0
            &&& m2.state == MouseState::Decision
        }),
{
    assert(rotate_times(m.direction, true, 0nat) == m.direction);
    assert(rotate_times(m.direction, true, 1nat) == dir_right(m.direction));
    assert(rotate_times(m.direction, true, 2nat) == dir_right(dir_right(m.direction)));
    lemma_dir_around_involution(m.direction);
}

/// `n` executor ticks of the same time step, applied in order.
pub open spec fn run_iter(m: MouseModel, dt: u32, n: nat) -> MouseModel
    decreases n,
{
    if n == 0 {
        m
    } else {
        run_next(run_iter(m, dt, (n - 1) as nat), dt)
    }
}

/// Ticks of a forward drive whose accumulated progress stays within one
/// cell length advance the progress linearly and change neither the
/// discrete pose nor the queue.
pub proof fn lemma_forward_ticks(m: MouseModel, dt: u32, k: nat)
    requires
        !m.paused,
        m.state == MouseState::MoveLinear(CELL_SIZE_UNITS, 0),
        k * (LINEAR_SPEED_PER_MS as int * dt as int) <= CELL_SIZE_UNITS,
    ensures
        ({
            let mk = run_iter(m, dt, k);
            &&& mk.cell_x == m.cell_x
            &&& mk.cell_y == m.cell_y
            &&& mk.direction == m.direction
            &&& mk.moves == m.moves
            &&& mk.paused == m.paused
            &&& mk.state == MouseState::MoveLinear(
                CELL_SIZE_UNITS,
                (k * (LINEAR_SPEED_PER_MS as int * dt as int)) as i32,
            )
        }),
    decreases k,
{
    let step = LINEAR_SPEED_PER_MS as int * dt as int;
    if k == 0 {
        assert(k * step == 0) by (nonlinear_arith)
            requires
                k == 0,
        ;
    } else {
        assert((k - 1) * step <= k * step && 0 <= (k - 1) * step && (k - 1) * step + step == k
            * step) by (nonlinear_arith)
            requires
                step >= 0,
                k >= 1,
        ;
        lemma_forward_ticks(m, dt, (k - 1) as nat);
        let mk1 = run_iter(m, dt, (k - 1) as nat);
        let v: int = (k - 1) * step;
        assert(mk1.state == MouseState::MoveLinear(CELL_SIZE_UNITS, v as i32));
        assert(v as i32 as int == v);
        assert(run_iter(m, dt, k) == run_next(mk1, dt));
        assert(run_next(mk1, dt) == linear_next(mk1, CELL_SIZE_UNITS, v as i32, dt as int));
        assert(v as i32 + signed_step(CELL_SIZE_UNITS, LINEAR_SPEED_PER_MS as int, dt as int)
            == k * step);
        assert(abs_int(k * step) <= abs_int(CELL_SIZE_UNITS as int));
    }
}

/// Kinematic round-trip: starting from a fresh forward drive, ticking until
/// the accumulated linear progress first exceeds one cell length yields
/// exactly one unit of discrete displacement along the current heading,
/// with both continuous offsets reset to zero and the executor back in the
/// decision state.
pub proof fn lemma_forward_round_trip(m: MouseModel, dt: u32, n: nat)
    requires
        !m.paused,
        m.state == MouseState::MoveLinear(CELL_SIZE_UNITS, 0),
        linear_dest_ok(m),
        n >= 1,
        (n - 1) * (LINEAR_SPEED_PER_MS as int * dt as int) <= CELL_SIZE_UNITS,
        n * (LINEAR_SPEED_PER_MS as int * dt as int) > CELL_SIZE_UNITS,
    ensures
        ({
            let mn = run_iter(m, dt, n);
            &&& mn.state == MouseState::Decision
            &&& mn.local_x == 0
            &&& mn.local_y == 0
            &&& mn.direction == m.direction
            &&& mn.moves == m.moves
            &&& match m.direction {
                Direction::North => mn.cell_y == m.cell_y + 1 && mn.cell_x == m.cell_x,
                Direction::South => mn.cell_y == m.cell_y - 1 && mn.cell_x == m.cell_x,
                Direction::East => mn.cell_x == m.cell_x + 1 && mn.cell_y == m.cell_y,
                Direction::West => mn.cell_x == m.cell_x - 1 && mn.cell_y == m.cell_y,
            }
        }),
{
    let step = LINEAR_SPEED_PER_MS as int * dt as int;
    assert((n - 1) * step + step == n * step && 0 <= (n - 1) * step) by (nonlinear_arith)
        requires
            step >= 0,
            n >= 1,
    ;
    lemma_forward_ticks(m, dt, (n - 1) as nat);
}

/// Ticks of a left quarter turn whose accumulated progress stays within the
/// target advance the angular progress linearly and keep the heading.
pub proof fn lemma_turn_left_ticks(m: MouseModel, dt: u32, k: nat)
    requires
        !m.paused,
        m.state == MouseState::MoveTurn((-QUARTER_TURN_UNITS) as i32, 0),
        k * (TURN_SPEED_PER_MS as int * dt as int) <= QUARTER_TURN_UNITS,
    ensures
        ({
            let mk = run_iter(m, dt, k);
            &&& mk.cell_x == m.cell_x
            &&& mk.cell_y == m.cell_y
            &&& mk.direction == m.direction
            &&& mk.moves == m.moves
            &&& mk.paused == m.paused
            &&& mk.state == MouseState::MoveTurn(
                (-QUARTER_TURN_UNITS) as i32,
                (-(k * (TURN_SPEED_PER_MS as int * dt as int))) as i32,
            )
        }),
    decreases k,
{
    let step = TURN_SPEED_PER_MS as int * dt as int;
    if k == 0 {
        assert(k * step == 0) by (nonlinear_arith)
            requires
                k == 0,
        ;
    } else {
        assert((k - 1) * step <= k * step && 0 <= (k - 1) * step && (k - 1) * step + step == k
            * step) by (nonlinear_arith)
            requires
                step >= 0,
                k >= 1,
        ;
        lemma_turn_left_ticks(m, dt, (k - 1) as nat);
        let mk1 = run_iter(m, dt, (k - 1) as nat);
        let v: int = -((k - 1) * step);
        assert(mk1.state == MouseState::MoveTurn((-QUARTER_TURN_UNITS) as i32, v as i32));
        assert(v as i32 as int == v);
        assert(run_iter(m, dt, k) == run_next(mk1, dt));
        assert(run_next(mk1, dt) == turn_next(
            mk1,
            (-QUARTER_TURN_UNITS) as i32,
            v as i32,
            dt as int,
        ));
        assert(v as i32 + signed_step(
            (-QUARTER_TURN_UNITS) as i32,
            TURN_SPEED_PER_MS as int,
            dt as int,
        ) == -(k * step));
        assert(abs_int(-(k * step)) <= abs_int(((-QUARTER_TURN_UNITS) as i32) as int));
    }
}

/// Turning round-trip: starting from a fresh left quarter turn, ticking
/// until the accumulated angular progress first exceeds the quarter-turn
/// target rotates the heading exactly one step counter-clockwise — through
/// the cycle north, west, south, east — with the continuous offset reset to
/// zero, the grid position unchanged and the executor back in the decision
/// state.
pub proof fn lemma_turn_left_round_trip(m: MouseModel, dt: u32, n: nat)
    requires
        !m.paused,
        m.state == MouseState::MoveTurn((-QUARTER_TURN_UNITS) as i32, 0),
        n >= 1,
        (n - 1) * (TURN_SPEED_PER_MS as int * dt as int) <= QUARTER_TURN_UNITS,
        n * (TURN_SPEED_PER_MS as int * dt as int) > QUARTER_TURN_UNITS,
    ensures
        ({
            let mn = run_iter(m, dt, n);
            &&& mn.state == MouseState::Decision
            &&& mn.local_direction == 0
            &&& mn.direction == dir_left(m.direction)
            &&& mn.cell_x == m.cell_x
            &&& mn.cell_y == m.cell_y
            &&& mn.moves == m.moves
        }),
{
    let step = TURN_SPEED_PER_MS as int * dt as int;
    assert((n - 1) * step + step == n * step && 0 <= (n - 1) * step) by (nonlinear_arith)
        requires
            step >= 0,
            n >= 1,
    ;
    lemma_turn_left_ticks(m, dt, (n - 1) as nat);
    assert(rotate_times(m.direction, false, 0nat) == m.direction);
    assert(rotate_times(m.direction, false, 1nat) == dir_left(m.direction));
}

/// The discrete grid position and heading change only out of a moving
/// state, at its committing tick — in whole-cell or quarter-turn
/// increments, with the matching continuous offsets reset — and never
/// during a decision tick or an uncommitted animation tick.
pub proof fn lemma_discrete_change_only_at_commit(m: MouseModel, dt: u32)
    requires
        mouse_wf(m),
        linear_dest_ok(m),
    ensures
        ({
            let m2 = run_next(m, dt);
            ((m2.cell_x, m2.cell_y) != (m.cell_x, m.cell_y) || m2.direction != m.direction)
                ==> {
                &&& (m.state is MoveLinear || m.state is MoveTurn)
                &&& m2.state is Decision
                &&& (m.state is MoveLinear ==> m2.direction == m.direction && m2.local_x == 0
                    && m2.local_y == 0 && (match m.direction {
                    Direction::North => m2.cell_y == m.cell_y + 1 && m2.cell_x == m.cell_x,
                    Direction::South => m2.cell_y == m.cell_y - 1 && m2.cell_x == m.cell_x,
                    Direction::East => m2.cell_x == m.cell_x + 1 && m2.cell_y == m.cell_y,
                    Direction::West => m2.cell_x == m.cell_x - 1 && m2.cell_y == m.cell_y,
                }))
                &&& (m.state is MoveTurn ==> m2.cell_x == m.cell_x && m2.cell_y == m.cell_y
                    && m2.local_direction == 0)
            }
        }),
{
}

impl Mouse {
    /// A fresh mouse at the origin, heading north, paused, with an empty
    /// queue, owning the given edge model and navigation engine.
    pub fn new(nav: Inteligate, edges: MazeEdges) -> (m: Mouse)
        ensures
            m@ == (MouseModel {
                local_x: 0,
                local_y: 0,
                cell_x: 0,
                cell_y: 0,
                local_direction: 0,
                direction: Direction::North,
                state: MouseState::Decision,
                paused: true,
                moves: Seq::empty(),
                edges,
                nav,
            }),
    {
        Mouse {
            local_x: 0,
            local_y: 0,
            cell_x: 0,
            cell_y: 0,
            local_direction: 0,
            direction: Direction::North,
            state: MouseState::Decision,
            paused: true,
            moves: Vec::new(),
            edges,
            nav,
        }
    }

    /// Clear the pause flag.
    pub fn start(&mut self)
        ensures
            final(self)@ == (MouseModel { paused: false, ..old(self)@ }),
    {
        self.paused = false;
    }

    /// Set the pause flag.
    pub fn stop(&mut self)
        ensures
            final(self)@ == (MouseModel { paused: true, ..old(self)@ }),
    {
        self.paused = true;
    }

    /// The discrete maze position and heading.
    pub fn maze_location(&self) -> (loc: (usize, usize, Direction))
        ensures
            loc == (self@.cell_x, self@.cell_y, self@.direction),
    {
        (self.cell_x, self.cell_y, self.direction)
    }

    /// The continuous world pose: position in position units and rotation
    /// in angle units.
    pub fn world_location(&self) -> (loc: (i32, i32, i32))
        requires
            pos_wf(self@),
            locals_wf(self@),
        ensures
            loc.0 == self@.cell_x * CELL_SIZE_UNITS + self@.local_x,
            loc.1 == self@.cell_y * CELL_SIZE_UNITS + self@.local_y,
            loc.2 == dir_rotation_units(self@.direction) + self@.local_direction,
    {
        (
            self.cell_x as i32 * CELL_SIZE_UNITS + self.local_x,
            self.cell_y as i32 * CELL_SIZE_UNITS + self.local_y,
            self.direction.rotation() + self.local_direction,
        )
    }

    /// The maze edge model the mouse senses.
    pub fn maze(&self) -> (e: &MazeEdges)
        ensures
            *e == self@.edges,
    {
        &self.edges
    }

    /// Append one move behind the pending queue.
    pub fn queue_move(&mut self, m: Move)
        ensures
            final(self)@ == (MouseModel { moves: old(self)@.moves.insert(0, m), ..old(self)@ }),
    {
        self.moves.insert(0, m);
    }

    /// The move options sensed at the current cell through the edge model.
    fn sensed_options(&self) -> (o: MoveOptions)
        requires
            pos_wf(self@),
        ensures
            o == sensed_options_spec(self@),
    {
        let x = self.cell_x;
        let y = self.cell_y;
        let north_edge = self.edges.north[x][y];
        let south_edge = self.edges.south[x][y];
        let east_edge = self.edges.east[x][y];
        let west_edge = self.edges.west[x][y];

        let left_edge = match self.direction {
            Direction::North => west_edge,
            Direction::South => east_edge,
            Direction::East => north_edge,
            Direction::West => south_edge,
        };

        let front_edge = match self.direction {
            Direction::North => north_edge,
            Direction::South => south_edge,
            Direction::East => east_edge,
            Direction::West => west_edge,
        };

        let right_edge = match self.direction {
            Direction::North => east_edge,
            Direction::South => west_edge,
            Direction::East => south_edge,
            Direction::West => north_edge,
        };

        MoveOptions { forward: front_edge, left: left_edge, right: right_edge }
    }

    /// The moving state entered for one dequeued move.
    fn state_entry(m: Move) -> (s: MouseState)
        ensures
            s == state_for_move(m),
    {
        match m {
            Move::Forward => MouseState::MoveLinear(CELL_SIZE_UNITS, 0),
            Move::TurnLeft => MouseState::MoveTurn(-QUARTER_TURN_UNITS, 0),
            Move::TurnRight => MouseState::MoveTurn(QUARTER_TURN_UNITS, 0),
            Move::TurnAround => MouseState::MoveTurn(HALF_TURN_UNITS, 0),
        }
    }

    /// One tick of `dt_ms` milliseconds: nothing while paused; in the
    /// decision state dequeue or consult the navigation engine; in a moving
    /// state advance the continuous animation and, on overshoot, commit the
    /// discrete displacement or rotation exactly once.
    pub fn run(&mut self, dt_ms: u32)
        requires
            dt_ms <= MAX_TICK_MS,
            mouse_wf(old(self)@),
            linear_dest_ok(old(self)@),
            nav_call_ok(old(self)@),
        ensures
            final(self)@ == run_next(old(self)@, dt_ms),
            mouse_wf(final(self)@),
    {
        if self.paused {
            return ;
        }
        match self.state {
            MouseState::Decision => {
                let popped = self.moves.pop();
                match popped {
                    Some(next_move) => {
                        self.state = Self::state_entry(next_move);
                        proof {
                            assert(self@ =~= run_next(old(self)@, dt_ms));
                        }
                    },
                    None => {
                        let opts = self.sensed_options();
                        let produced = self.nav.navigate(opts);
                        if let Some(first) = produced[0] {
                            self.moves.insert(0, first);
                        }
                        if let Some(second) = produced[1] {
                            self.moves.insert(0, second);
                        }
                        let next = self.moves.pop();
                        match next {
                            Some(next_move) => {
                                self.state = Self::state_entry(next_move);
                            },
                            None => {},
                        }
                        proof {
                            let list = navigate_moves_list(old(self)@.nav, opts);
                            let q = list.reverse();
                            if list.len() == 0 {
                                assert(q =~= list);
                                assert(self.moves@ =~= q);
                            } else {
                                assert(self.moves@ =~= q.drop_last());
                            }
                            assert(self@ =~= run_next(old(self)@, dt_ms));
                        }
                    },
                }
            },
            MouseState::MoveLinear(target, value) => {
                let step: i32 = LINEAR_SPEED_PER_MS * (dt_ms as i32);
                let new_value: i32 = if target > 0 {
                    value + step
                } else {
                    value - step
                };
                let abs_new: i32 = if new_value >= 0 {
                    new_value
                } else {
                    -new_value
                };
                let abs_target: i32 = if target >= 0 {
                    target
                } else {
                    -target
                };
                if abs_new > abs_target {
                    let cells_moved: usize = ((abs_target + CELL_SIZE_UNITS / 2)
                        / CELL_SIZE_UNITS) as usize;
                    match self.direction {
                        Direction::North => {
                            self.cell_y = self.cell_y + cells_moved;
                        },
                        Direction::South => {
                            self.cell_y = self.cell_y - cells_moved;
                        },
                        Direction::East => {
                            self.cell_x = self.cell_x + cells_moved;
                        },
                        Direction::West => {
                            self.cell_x = self.cell_x - cells_moved;
                        },
                    }
                    self.local_x = 0;
                    self.local_y = 0;
                    self.state = MouseState::Decision;
                } else {
                    match self.direction {
                        Direction::North => {
                            self.local_y = new_value;
                        },
                        Direction::South => {
                            self.local_y = -new_value;
                        },
                        Direction::East => {
                            self.local_x = new_value;
                        },
                        Direction::West => {
                            self.local_x = -new_value;
                        },
                    }
                    self.state = MouseState::MoveLinear(target, new_value);
                }
                proof {
                    assert(self@ =~= run_next(old(self)@, dt_ms));
                }
            },
            MouseState::MoveTurn(target, value) => {
                let step: i32 = TURN_SPEED_PER_MS * (dt_ms as i32);
                let new_value: i32 = if target > 0 {
                    value + step
                } else {
                    value - step
                };
                let abs_new: i32 = if new_value >= 0 {
                    new_value
                } else {
                    -new_value
                };
                let abs_target: i32 = if target >= 0 {
                    target
                } else {
                    -target
                };
                if abs_new > abs_target {
                    let turns: usize = ((abs_target + QUARTER_TURN_UNITS / 2)
                        / QUARTER_TURN_UNITS) as usize;
                    let ghost snap = *self;
                    let clockwise = target > 0;
                    let mut i: usize = 0;
                    while i < turns
                        invariant
                            i <= turns,
                            self.direction == rotate_times(snap.direction, clockwise, i as nat),
                            self.local_x == snap.local_x,
                            self.local_y == snap.local_y,
                            self.cell_x == snap.cell_x,
                            self.cell_y == snap.cell_y,
                            self.local_direction == snap.local_direction,
                            self.state == snap.state,
                            self.paused == snap.paused,
                            self.moves == snap.moves,
                            self.edges == snap.edges,
                            self.nav == snap.nav,
                        decreases turns - i,
                    {
                        if clockwise {
                            self.direction.turn_right();
                        } else {
                            self.direction.turn_left();
                        }
                        i = i + 1;
                    }
                    self.local_direction = 0;
                    self.state = MouseState::Decision;
                } else {
                    self.local_direction = new_value;
                    self.state = MouseState::MoveTurn(target, new_value);
                }
                proof {
                    assert(self@ =~= run_next(old(self)@, dt_ms));
                }
            },
        }
    }
}

} // verus!
