//! The navigation engine: a weighted 16-by-16 grid of cells, a best-move
//! decision rule over heading-relative neighbour weights, and a per-visit
//! weight update with dead-end back-propagation.

use vstd::prelude::*;

use crate::plan::Move;
use crate::plan::MoveOptions;

verus! {

/// Weight marking a cell as unreachable or a known dead end; also the weight
/// of the sentinel cell returned by any out-of-bounds lookup.
pub const SENTINEL_WEIGHT: u16 = 0xffff;

/// Row and column of the sentinel cell returned by out-of-bounds lookups.
pub const SENTINEL_COORD: usize = 0xff;

/// The arrival check tests this row and column.
pub const GOAL_ROW: usize = 8;

/// The arrival check tests this row and column.
pub const GOAL_COL: usize = 8;

/// The initial distance seeding is centred on this row and column. The
/// seeding bias centre and the arrival coordinate are distinct by design of
/// the heuristic.
pub const SEED_ROW: usize = 4;

/// The initial distance seeding is centred on this row and column.
pub const SEED_COL: usize = 4;

/// A grid position together with its navigation weight (lower is preferred).
#[derive(Copy, Clone, Debug, PartialEq, Eq, Structural)]
pub struct Cell {
    pub row: usize,
    pub col: usize,
    pub weight: u16,
}

/// The robot's absolute compass orientation, independent of grid coordinates.
#[derive(Copy, Clone, Debug, PartialEq, Eq, Structural)]
pub enum CardinalDirection {
    North,
    East,
    South,
    West,
}

/// Result of the decision rule, relative to the current heading; mapped to
/// one or two output moves afterwards.
#[derive(Copy, Clone, Debug, PartialEq, Eq, Structural)]
pub enum MoveDirection {
    Forward,
    Left,
    Backward,
    Right,
}

/// The fixed invalid-cell value substituted for any out-of-bounds lookup.
pub open spec fn invalid_cell() -> Cell {
    Cell { row: SENTINEL_COORD, col: SENTINEL_COORD, weight: SENTINEL_WEIGHT }
}

/// The decision cascade: scanning in priority order forward, left, right,
/// the first direction flagged open whose weight is no larger than every
/// other open direction's weight wins — backward always counts as open, and
/// a closed direction's weight is ignored; backward is the fallback when no
/// open direction qualifies.
pub open spec fn best_move_spec(fw: u16, lw: u16, rw: u16, bw: u16, opts: MoveOptions) -> MoveDirection {
    if opts.forward && (opts.left ==> fw <= lw) && fw <= bw && (opts.right ==> fw <= rw) {
        MoveDirection::Forward
    } else if opts.left && (opts.forward ==> lw <= fw) && lw <= bw && (opts.right ==> lw <= rw) {
        MoveDirection::Left
    } else if opts.right && (opts.forward ==> rw <= fw) && (opts.left ==> rw <= lw) && rw <= bw {
        MoveDirection::Right
    } else {
        MoveDirection::Backward
    }
}

/// Every direction flagged open carries the sentinel weight; in particular
/// true when no direction is flagged open at all.
pub open spec fn all_open_dead_end(fw: u16, lw: u16, rw: u16, opts: MoveOptions) -> bool {
    &&& (opts.forward ==> fw == SENTINEL_WEIGHT)
    &&& (opts.left ==> lw == SENTINEL_WEIGHT)
    &&& (opts.right ==> rw == SENTINEL_WEIGHT)
}

/// The new weight of the currently occupied cell: the sentinel when every
/// open direction is a known dead end (or nothing is open), otherwise the
/// current weight plus one.
pub open spec fn new_weight_spec(cw: u16, fw: u16, lw: u16, rw: u16, opts: MoveOptions) -> int {
    if all_open_dead_end(fw, lw, rw, opts) {
        SENTINEL_WEIGHT as int
    } else {
        cw + 1
    }
}

impl Cell {
    pub fn new(row: usize, col: usize, weight: u16) -> (c: Cell)
        ensures
            c == (Cell { row, col, weight }),
    {
        Cell { row, col, weight }
    }

    pub fn invalid() -> (c: Cell)
        ensures
            c == invalid_cell(),
    {
        Cell::new(0xff, 0xff, 0xffff)
    }

    /// Choose the direction with the minimum weight among the directions
    /// flagged open, scanning in priority order forward, left, right;
    /// backward is always eligible as the final fallback, and a closed
    /// direction's weight plays no part in the comparisons.
    pub fn best_move(
        forward_cell: Cell,
        left_cell: Cell,
        right_cell: Cell,
        backward_cell: Cell,
        move_options: MoveOptions,
    ) -> (d: MoveDirection)
        ensures
            d == best_move_spec(
                forward_cell.weight,
                left_cell.weight,
                right_cell.weight,
                backward_cell.weight,
                move_options,
            ),
    {
        let fw = forward_cell.weight;
        let lw = left_cell.weight;
        let bw = backward_cell.weight;
        let rw = right_cell.weight;

        if move_options.forward && (!move_options.left || fw <= lw) && fw <= bw
            && (!move_options.right || fw <= rw) {
            MoveDirection::Forward
        } else if move_options.left && (!move_options.forward || lw <= fw) && lw <= bw
            && (!move_options.right || lw <= rw) {
            MoveDirection::Left
        } else if move_options.right && (!move_options.forward || rw <= fw)
            && (!move_options.left || rw <= lw) && rw <= bw {
            MoveDirection::Right
        } else {
            MoveDirection::Backward
        }
    }

    /// Decide the new weight for the currently occupied cell: dead ends
    /// propagate backward as the sentinel, otherwise the visit counter grows
    /// by one.
    pub fn calc_new_weight(
        self,
        forward_cell: Cell,
        left_cell: Cell,
        right_cell: Cell,
        move_options: MoveOptions,
    ) -> (w: u16)
        requires
            !all_open_dead_end(forward_cell.weight, left_cell.weight, right_cell.weight, move_options)
                ==> self.weight < SENTINEL_WEIGHT,
        ensures
            w == new_weight_spec(
                self.weight,
                forward_cell.weight,
                left_cell.weight,
                right_cell.weight,
                move_options,
            ),
    {
        let cw = self.weight;
        let fw = forward_cell.weight;
        let lw = left_cell.weight;
        let rw = right_cell.weight;

        match (move_options.forward, move_options.left, move_options.right, fw, lw, rw) {
            (true, true, true, 0xffff, 0xffff, 0xffff) => 0xffff,
            (true, true, false, 0xffff, 0xffff, _) => 0xffff,
            (true, false, true, 0xffff, _, 0xffff) => 0xffff,
            (false, true, true, _, 0xffff, 0xffff) => 0xffff,
            (false, false, true, _, _, 0xffff) => 0xffff,
            (false, true, false, _, 0xffff, _) => 0xffff,
            (true, false, false, 0xffff, _, _) => 0xffff,
            (false, false, false, _, _, _) => 0xffff,
            _ => cw + 1,
        }
    }
}

/// Counter-clockwise quarter rotation of a compass heading.
pub open spec fn left_of(d: CardinalDirection) -> CardinalDirection {
    match d {
        CardinalDirection::North => CardinalDirection::West,
        CardinalDirection::West => CardinalDirection::South,
        CardinalDirection::South => CardinalDirection::East,
        CardinalDirection::East => CardinalDirection::North,
    }
}

/// Clockwise quarter rotation of a compass heading.
pub open spec fn right_of(d: CardinalDirection) -> CardinalDirection {
    match d {
        CardinalDirection::North => CardinalDirection::East,
        CardinalDirection::East => CardinalDirection::South,
        CardinalDirection::South => CardinalDirection::West,
        CardinalDirection::West => CardinalDirection::North,
    }
}

/// Half rotation of a compass heading.
pub open spec fn opposite_of(d: CardinalDirection) -> CardinalDirection {
    match d {
        CardinalDirection::North => CardinalDirection::South,
        CardinalDirection::South => CardinalDirection::North,
        CardinalDirection::East => CardinalDirection::West,
        CardinalDirection::West => CardinalDirection::East,
    }
}

impl CardinalDirection {
    /// The heading after a quarter turn to the left.
    pub fn turned_left(self) -> (d: CardinalDirection)
        ensures
            d == left_of(self),
    {
        match self {
            CardinalDirection::North => CardinalDirection::West,
            CardinalDirection::West => CardinalDirection::South,
            CardinalDirection::South => CardinalDirection::East,
            CardinalDirection::East => CardinalDirection::North,
        }
    }

    /// The heading after a quarter turn to the right.
    pub fn turned_right(self) -> (d: CardinalDirection)
        ensures
            d == right_of(self),
    {
        match self {
            CardinalDirection::North => CardinalDirection::East,
            CardinalDirection::East => CardinalDirection::South,
            CardinalDirection::South => CardinalDirection::West,
            CardinalDirection::West => CardinalDirection::North,
        }
    }

    /// The heading after a half turn.
    pub fn reversed(self) -> (d: CardinalDirection)
        ensures
            d == opposite_of(self),
    {
        match self {
            CardinalDirection::North => CardinalDirection::South,
            CardinalDirection::South => CardinalDirection::North,
            CardinalDirection::East => CardinalDirection::West,
            CardinalDirection::West => CardinalDirection::East,
        }
    }
}

/// Grid-offset delta `(row, col)` of the cell one step in the given
/// heading-relative direction, for each absolute heading.
pub open spec fn rel_delta(heading: CardinalDirection, rel: MoveDirection) -> (int, int) {
    match heading {
        CardinalDirection::North => match rel {
            MoveDirection::Forward => (1int, 0int),
            MoveDirection::Left => (0int, 1int),
            MoveDirection::Right => (0int, -1int),
            MoveDirection::Backward => (-1int, 0int),
        },
        CardinalDirection::East => match rel {
            MoveDirection::Forward => (0int, 1int),
            MoveDirection::Left => (1int, 0int),
            MoveDirection::Right => (-1int, 0int),
            MoveDirection::Backward => (0int, -1int),
        },
        CardinalDirection::South => match rel {
            MoveDirection::Forward => (-1int, 0int),
            MoveDirection::Left => (0int, -1int),
            MoveDirection::Right => (0int, 1int),
            MoveDirection::Backward => (1int, 0int),
        },
        CardinalDirection::West => match rel {
            MoveDirection::Forward => (0int, -1int),
            MoveDirection::Left => (-1int, 0int),
            MoveDirection::Right => (1int, 0int),
            MoveDirection::Backward => (0int, 1int),
        },
    }
}

/// The grid cell at `(r, c)`, or the sentinel cell when `(r, c)` lies
/// outside the 16-by-16 bounds.
pub open spec fn cell_at(maze: [[Cell; 16]; 16], r: int, c: int) -> Cell {
    if 0 <= r < 16 && 0 <= c < 16 {
        maze[r][c]
    } else {
        invalid_cell()
    }
}

/// The navigation engine: the weighted grid, a cached snapshot of the
/// currently occupied cell, and the current absolute heading.
#[verifier::ext_equal]
pub struct Inteligate {
    pub maze: [[Cell; 16]; 16],
    pub current_cell: Cell,
    pub current_direction: CardinalDirection,
}

/// The neighbour cell one step in the given heading-relative direction from
/// the engine's current position.
pub open spec fn neighbor_spec(nav: Inteligate, rel: MoveDirection) -> Cell {
    let d = rel_delta(nav.current_direction, rel);
    cell_at(nav.maze, nav.current_cell.row + d.0, nav.current_cell.col + d.1)
}

/// The decision taken by `navigate`. The cascade receives the right,
/// backward and left neighbours in the left, right and backward parameter
/// slots: the slot assignment deliberately differs from the heading-relative
/// roles and is part of the decision rule; tests pin it.
pub open spec fn chosen_direction(nav: Inteligate, opts: MoveOptions) -> MoveDirection {
    best_move_spec(
        neighbor_spec(nav, MoveDirection::Forward).weight,
        neighbor_spec(nav, MoveDirection::Right).weight,
        neighbor_spec(nav, MoveDirection::Backward).weight,
        neighbor_spec(nav, MoveDirection::Left).weight,
        opts,
    )
}

/// The weight written into the grid at the current position by `navigate`.
/// The update receives the right neighbour in the left slot and the left
/// neighbour in the right slot, mirroring the decision call; the current
/// weight fed in is the cached counter after its increment.
pub open spec fn navigate_weight_update(nav: Inteligate, opts: MoveOptions) -> int {
    new_weight_spec(
        (nav.current_cell.weight + 1) as u16,
        neighbor_spec(nav, MoveDirection::Forward).weight,
        neighbor_spec(nav, MoveDirection::Right).weight,
        neighbor_spec(nav, MoveDirection::Left).weight,
        opts,
    )
}

impl Inteligate {
    /// The cached current position lies inside the grid.
    pub open spec fn wf(self) -> bool {
        &&& self.current_cell.row < 16
        &&& self.current_cell.col < 16
    }

    /// The engine stands at the designated goal coordinate.
    pub open spec fn at_goal(self) -> bool {
        self.current_cell.row == GOAL_ROW && self.current_cell.col == GOAL_COL
    }
}

/// The engine state after one `navigate` call: the cached visit counter is
/// always incremented; away from the goal the grid cell at the current
/// position takes the updated weight, the cached cell becomes the chosen
/// neighbour's snapshot, and the heading rotates with the chosen direction.
pub open spec fn navigate_next(nav: Inteligate, opts: MoveOptions) -> Inteligate {
    let bumped = Cell { weight: (nav.current_cell.weight + 1) as u16, ..nav.current_cell };
    if nav.at_goal() {
        Inteligate { current_cell: bumped, ..nav }
    } else {
        let row = nav.current_cell.row as int;
        let col = nav.current_cell.col as int;
        let stored = Cell {
            weight: navigate_weight_update(nav, opts) as u16,
            ..nav.maze[row][col]
        };
        let maze2 = vstd::array::spec_array_update(
            nav.maze,
            row,
            vstd::array::spec_array_update(nav.maze[row], col, stored),
        );
        let d = chosen_direction(nav, opts);
        let chosen = match d {
            MoveDirection::Forward => neighbor_spec(nav, MoveDirection::Forward),
            MoveDirection::Left => neighbor_spec(nav, MoveDirection::Left),
            MoveDirection::Right => neighbor_spec(nav, MoveDirection::Right),
            MoveDirection::Backward => neighbor_spec(nav, MoveDirection::Backward),
        };
        let dir2 = match d {
            MoveDirection::Forward => nav.current_direction,
            MoveDirection::Left => left_of(nav.current_direction),
            MoveDirection::Right => right_of(nav.current_direction),
            MoveDirection::Backward => opposite_of(nav.current_direction),
        };
        Inteligate { maze: maze2, current_cell: chosen, current_direction: dir2 }
    }
}

/// The moves produced by one `navigate` call, in execution order: empty at
/// the goal, otherwise the turn (if any) for the chosen direction followed
/// by one forward step.
pub open spec fn navigate_moves_list(nav: Inteligate, opts: MoveOptions) -> Seq<Move> {
    if nav.at_goal() {
        Seq::empty()
    } else {
        match chosen_direction(nav, opts) {
            MoveDirection::Forward => seq![Move::Forward],
            MoveDirection::Left => seq![Move::TurnLeft, Move::Forward],
            MoveDirection::Right => seq![Move::TurnRight, Move::Forward],
            MoveDirection::Backward => seq![Move::TurnAround, Move::Forward],
        }
    }
}

/// The move list laid out as the fixed pair returned by `navigate`.
pub open spec fn move_slot(list: Seq<Move>, i: int) -> Option<Move> {
    if 0 <= i < list.len() {
        Some(list[i])
    } else {
        None
    }
}

/// What a `navigate` call asks of the engine state: the position is inside
/// the grid, the visit counter can still grow, when a weight is going to be
/// written it fits below the sentinel, and the stored weight at the current
/// position does not exceed the cached counter — the cache starts as the
/// grid entry's snapshot and only ever grows between commits, so every
/// engine-reachable state satisfies this, and under it no navigation step
/// lowers a stored weight.
pub open spec fn navigate_requires(nav: Inteligate, opts: MoveOptions) -> bool {
    &&& nav.wf()
    &&& nav.current_cell.weight < SENTINEL_WEIGHT
    &&& (!nav.at_goal() && !all_open_dead_end(
        neighbor_spec(nav, MoveDirection::Forward).weight,
        neighbor_spec(nav, MoveDirection::Right).weight,
        neighbor_spec(nav, MoveDirection::Left).weight,
        opts,
    )) ==> nav.current_cell.weight + 2 <= SENTINEL_WEIGHT
    &&& nav.maze[nav.current_cell.row as int][nav.current_cell.col as int].weight
        <= nav.current_cell.weight
}

/// A navigation capability: propose the next move or two, given the sensed
/// openness of the three forward-facing edges.
pub trait Navigate {
    /// When the proposer accepts a `navigate` call in its current state.
    spec fn navigate_pre(&self, move_options: MoveOptions) -> bool;

    fn navigate(&mut self, move_options: MoveOptions) -> [Option<Move>; 2]
        requires
            old(self).navigate_pre(move_options),
    ;
}

impl Inteligate {
    /// Heading-relative neighbour lookup: the cell one step in the given
    /// relative direction, or the sentinel cell when that step leaves the
    /// 16-by-16 grid.
    pub fn neighbor(&self, rel: MoveDirection) -> (c: Cell)
        requires
            self.wf(),
        ensures
            c == neighbor_spec(*self, rel),
    {
        let (dr, dc): (i32, i32) = match (self.current_direction, rel) {
            (CardinalDirection::North, MoveDirection::Forward) => (1, 0),
            (CardinalDirection::North, MoveDirection::Left) => (0, 1),
            (CardinalDirection::North, MoveDirection::Right) => (0, -1),
            (CardinalDirection::North, MoveDirection::Backward) => (-1, 0),
            (CardinalDirection::East, MoveDirection::Forward) => (0, 1),
            (CardinalDirection::East, MoveDirection::Left) => (1, 0),
            (CardinalDirection::East, MoveDirection::Right) => (-1, 0),
            (CardinalDirection::East, MoveDirection::Backward) => (0, -1),
            (CardinalDirection::South, MoveDirection::Forward) => (-1, 0),
            (CardinalDirection::South, MoveDirection::Left) => (0, -1),
            (CardinalDirection::South, MoveDirection::Right) => (0, 1),
            (CardinalDirection::South, MoveDirection::Backward) => (1, 0),
            (CardinalDirection::West, MoveDirection::Forward) => (0, -1),
            (CardinalDirection::West, MoveDirection::Left) => (-1, 0),
            (CardinalDirection::West, MoveDirection::Right) => (1, 0),
            (CardinalDirection::West, MoveDirection::Backward) => (0, 1),
        };
        let r = self.current_cell.row as i32 + dr;
        let c = self.current_cell.col as i32 + dc;
        if 0 <= r && r < 16 && 0 <= c && c < 16 {
            self.maze[r as usize][c as usize]
        } else {
            Cell::invalid()
        }
    }

    /// One navigation step: bump the visit counter; at the goal report no
    /// moves; otherwise pick the best heading-relative direction, write the
    /// updated weight into the grid at the current position, adopt the
    /// chosen neighbour as the current cell, rotate the heading, and emit
    /// the move or pair of moves realising the decision.
    pub fn navigate(&mut self, move_options: MoveOptions) -> (moves: [Option<Move>; 2])
        requires
            navigate_requires(*old(self), move_options),
        ensures
            *final(self) == navigate_next(*old(self), move_options),
            moves@[0] == move_slot(navigate_moves_list(*old(self), move_options), 0),
            moves@[1] == move_slot(navigate_moves_list(*old(self), move_options), 1),
    {
        self.current_cell.weight = self.current_cell.weight + 1;
        let cr = self.current_cell.row;
        let cc = self.current_cell.col;
        if cr == 8 && cc == 8 {
            [None, None]
        } else {
            let forward_cell = self.neighbor(MoveDirection::Forward);
            let left_cell = self.neighbor(MoveDirection::Left);
            let right_cell = self.neighbor(MoveDirection::Right);
            let backward_cell = self.neighbor(MoveDirection::Backward);

            let next_move = Cell::best_move(
                forward_cell,
                right_cell,
                backward_cell,
                left_cell,
                move_options,
            );

            let w = self.current_cell.calc_new_weight(
                forward_cell,
                right_cell,
                left_cell,
                move_options,
            );
            let mut grid_row: [Cell; 16] = self.maze[cr];
            let mut stored: Cell = grid_row[cc];
            stored.weight = w;
            grid_row[cc] = stored;
            self.maze[cr] = grid_row;

            let result = match next_move {
                MoveDirection::Forward => {
                    self.current_cell = forward_cell;
                    [Some(Move::Forward), None]
                },
                MoveDirection::Left => {
                    self.current_cell = left_cell;
                    self.current_direction = self.current_direction.turned_left();
                    [Some(Move::TurnLeft), Some(Move::Forward)]
                },
                MoveDirection::Backward => {
                    self.current_cell = backward_cell;
                    self.current_direction = self.current_direction.reversed();
                    [Some(Move::TurnAround), Some(Move::Forward)]
                },
                MoveDirection::Right => {
                    self.current_cell = right_cell;
                    self.current_direction = self.current_direction.turned_right();
                    [Some(Move::TurnRight), Some(Move::Forward)]
                },
            };
            proof {
                assert(*self =~= navigate_next(*old(self), move_options));
            }
            result
        }
    }
}

/// The weight sitting in the given decision-rule parameter slot.
pub open spec fn direction_weight(d: MoveDirection, fw: u16, lw: u16, rw: u16, bw: u16) -> u16 {
    match d {
        MoveDirection::Forward => fw,
        MoveDirection::Left => lw,
        MoveDirection::Right => rw,
        MoveDirection::Backward => bw,
    }
}

/// The least of the four direction weights.
pub open spec fn min_weight(fw: u16, lw: u16, rw: u16, bw: u16) -> u16 {
    let m1 = if fw <= lw { fw } else { lw };
    let m2 = if m1 <= rw { m1 } else { rw };
    if m2 <= bw { m2 } else { bw }
}

/// With every direction flagged open, the decision rule returns the
/// direction holding the minimum of the four weights, and on a tie the
/// direction earliest in the priority order forward, left, right, backward.
pub proof fn lemma_best_move_picks_minimum(fw: u16, lw: u16, rw: u16, bw: u16)
    ensures
        ({
            let opts = MoveOptions { forward: true, left: true, right: true };
            let d = best_move_spec(fw, lw, rw, bw, opts);
            let m = min_weight(fw, lw, rw, bw);
            &&& direction_weight(d, fw, lw, rw, bw) == m
            &&& d == (if fw == m {
                MoveDirection::Forward
            } else if lw == m {
                MoveDirection::Left
            } else if rw == m {
                MoveDirection::Right
            } else {
                MoveDirection::Backward
            })
        }),
{
}

/// The decision always lands on an eligible direction — one flagged open,
/// or the backward fallback — and that direction's weight is least among
/// the eligible directions; a closed direction's weight never matters.
pub proof fn lemma_best_move_picks_eligible_minimum(
    fw: u16,
    lw: u16,
    rw: u16,
    bw: u16,
    opts: MoveOptions,
)
    ensures
        ({
            let d = best_move_spec(fw, lw, rw, bw, opts);
            let dw = direction_weight(d, fw, lw, rw, bw);
            &&& (d is Forward ==> opts.forward)
            &&& (d is Left ==> opts.left)
            &&& (d is Right ==> opts.right)
            &&& (opts.forward ==> dw <= fw)
            &&& (opts.left ==> dw <= lw)
            &&& (opts.right ==> dw <= rw)
            &&& dw <= bw
        }),
{
}

/// Dead-end back-propagation: when every direction flagged open carries the
/// sentinel weight — in particular when no direction is flagged open at all
/// — the new weight is the sentinel, whatever the closed directions hold.
pub proof fn lemma_new_weight_dead_end(cw: u16, fw: u16, lw: u16, rw: u16, opts: MoveOptions)
    requires
        opts.forward ==> fw == SENTINEL_WEIGHT,
        opts.left ==> lw == SENTINEL_WEIGHT,
        opts.right ==> rw == SENTINEL_WEIGHT,
    ensures
        new_weight_spec(cw, fw, lw, rw, opts) == SENTINEL_WEIGHT,
{
}

/// When at least one direction flagged open has a weight below the
/// sentinel, the new weight is the current weight plus one.
pub proof fn lemma_new_weight_increments(cw: u16, fw: u16, lw: u16, rw: u16, opts: MoveOptions)
    requires
        (opts.forward && fw < SENTINEL_WEIGHT) || (opts.left && lw < SENTINEL_WEIGHT) || (
        opts.right && rw < SENTINEL_WEIGHT),
    ensures
        new_weight_spec(cw, fw, lw, rw, opts) == cw + 1,
{
}

/// A navigation step taken at the designated goal coordinate produces no
/// moves and leaves the grid and the heading untouched; only the cached
/// visit counter grows.
pub proof fn lemma_navigate_at_goal(nav: Inteligate, opts: MoveOptions)
    requires
        nav.at_goal(),
    ensures
        navigate_moves_list(nav, opts) =~= Seq::<Move>::empty(),
        navigate_next(nav, opts).maze == nav.maze,
        navigate_next(nav, opts).current_direction == nav.current_direction,
        navigate_next(nav, opts).current_cell == (Cell {
            weight: (nav.current_cell.weight + 1) as u16,
            ..nav.current_cell
        }),
{
}

/// A neighbour lookup whose step leaves the 16-by-16 grid yields the
/// sentinel cell: both coordinates 255 and the sentinel weight, never an
/// out-of-range access.
pub proof fn lemma_neighbor_out_of_bounds(nav: Inteligate, rel: MoveDirection)
    requires
        ({
            let d = rel_delta(nav.current_direction, rel);
            let r = nav.current_cell.row + d.0;
            let c = nav.current_cell.col + d.1;
            !(0 <= r < 16 && 0 <= c < 16)
        }),
    ensures
        neighbor_spec(nav, rel) == invalid_cell(),
{
}

/// A navigation step mutates the grid at most at the currently occupied
/// cell: every other cell keeps its value.
pub proof fn lemma_navigate_touches_only_current_cell(nav: Inteligate, opts: MoveOptions)
    requires
        nav.wf(),
    ensures
        forall|r: int, c: int|
            0 <= r < 16 && 0 <= c < 16 && !(r == nav.current_cell.row && c
                == nav.current_cell.col) ==> #[trigger] navigate_next(nav, opts).maze[r][c]
                == nav.maze[r][c],
{
}

/// Stored grid weights are monotonically non-decreasing across navigation
/// steps: under `navigate`'s precondition, no cell's weight is ever
/// lowered — the occupied cell takes either the sentinel or at least two
/// more than its stored weight, and every other cell keeps its value.
pub proof fn lemma_navigate_weights_nondecreasing(nav: Inteligate, opts: MoveOptions)
    requires
        navigate_requires(nav, opts),
    ensures
        forall|r: int, c: int|
            0 <= r < 16 && 0 <= c < 16 ==> nav.maze[r][c].weight <= (#[trigger] navigate_next(
                nav,
                opts,
            ).maze[r][c]).weight,
{
}

/// Squared grid distance from `(r, c)` to the seeding centre.
pub open spec fn seed_distance_sq(r: int, c: int) -> int {
    let dr = r - SEED_ROW;
    let dc = c - SEED_COL;
    dr * dr + dc * dc
}

/// A freshly seeded cell: its own coordinates, and as weight the floor of
/// the square root of its squared distance to the seeding centre.
pub open spec fn seeded_cell(cell: Cell, r: int, c: int) -> bool {
    &&& cell.row == r
    &&& cell.col == c
    &&& cell.weight * cell.weight <= seed_distance_sq(r, c)
    &&& seed_distance_sq(r, c) < (cell.weight + 1) * (cell.weight + 1)
}

impl Inteligate {
    /// A fresh engine: the first 15 rows and columns seeded with the
    /// distance heuristic, the remaining border row and column left as the
    /// invalid cell, the current cell cached from the origin, heading north.
    pub fn new() -> (nav: Inteligate)
        ensures
            nav.wf(),
            nav.current_direction == CardinalDirection::North,
            nav.current_cell == (Cell { row: 0, col: 0, weight: nav.maze[0][0].weight }),
            nav.current_cell.weight + 2 <= SENTINEL_WEIGHT,
            forall|r: int, c: int|
                0 <= r < 15 && 0 <= c < 15 ==> seeded_cell(#[trigger] nav.maze[r][c], r, c),
            forall|r: int, c: int|
                0 <= r < 16 && 0 <= c < 16 && (r == 15 || c == 15) ==> nav.maze[r][c]
                    == invalid_cell(),
    {
        let mut maze: [[Cell; 16]; 16] = [[Cell::invalid(); 16]; 16];
        let mut row: usize = 0;
        while row < 15
            invariant
                row <= 15,
                forall|r: int, c: int|
                    0 <= r < row && 0 <= c < 15 ==> seeded_cell(#[trigger] maze[r][c], r, c),
                forall|r: int, c: int|
                    0 <= r < 16 && 0 <= c < 16 && (r >= row || c == 15) ==> maze[r][c]
                        == invalid_cell(),
            decreases 15 - row,
        {
            let mut col: usize = 0;
            while col < 15
                invariant
                    row < 15,
                    col <= 15,
                    forall|r: int, c: int|
                        0 <= r < row && 0 <= c < 15 ==> seeded_cell(#[trigger] maze[r][c], r, c),
                    forall|c: int| 0 <= c < col ==> seeded_cell(#[trigger] maze[row as int][c], row as int, c),
                    forall|r: int, c: int|
                        0 <= r < 16 && 0 <= c < 16 && (r > row || (r == row && c >= col) || c
                            == 15) ==> maze[r][c] == invalid_cell(),
                decreases 15 - col,
            {
                let dr: usize = if row >= 4 { row - 4 } else { 4 - row };
                let dc: usize = if col >= 4 { col - 4 } else { 4 - col };
                proof {
                    assert(dr * dr <= 100 && dc * dc <= 100) by (nonlinear_arith)
                        requires
                            dr <= 10,
                            dc <= 10,
                    ;
                    assert(dr * dr + dc * dc == seed_distance_sq(row as int, col as int))
                        by (nonlinear_arith)
                        requires
                            dr == (if row >= 4 { row - 4 } else { (4 - row) as int }),
                            dc == (if col >= 4 { col - 4 } else { (4 - col) as int }),
                    ;
                }
                let distance: u16 = isqrt((dr * dr + dc * dc) as u16);
                let mut grid_row: [Cell; 16] = maze[row];
                grid_row[col] = Cell::new(row, col, distance);
                maze[row] = grid_row;
                col = col + 1;
            }
            row = row + 1;
        }
        let origin_weight: u16 = maze[0][0].weight;
        proof {
            assert(origin_weight <= 32) by (nonlinear_arith)
                requires
                    origin_weight * origin_weight <= 32,
            ;
        }
        let current_cell: Cell = Cell::new(0, 0, origin_weight);
        let current_direction = CardinalDirection::North;
        Inteligate { maze, current_cell, current_direction }
    }

    /// Read one grid cell.
    pub fn grid_cell(&self, row: usize, col: usize) -> (c: Cell)
        requires
            row < 16,
            col < 16,
        ensures
            c == self.maze[row as int][col as int],
    {
        self.maze[row][col]
    }
}

impl Navigate for Inteligate {
    open spec fn navigate_pre(&self, move_options: MoveOptions) -> bool {
        navigate_requires(*self, move_options)
    }

    fn navigate(&mut self, move_options: MoveOptions) -> [Option<Move>; 2] {
        Inteligate::navigate(self, move_options)
    }
}

/// Floor of the square root of `num`: the unique `r` with
/// `r * r <= num < (r + 1) * (r + 1)`.
pub fn isqrt(num: u16) -> (r: u16)
    ensures
        r * r <= num,
        num < (r + 1) * (r + 1),
{
    if num == 0 || num == 1 {
        num
    } else {
        let mut k: u16 = 1;
        loop
            invariant_except_break
                1 <= k <= 255,
                k * k <= num,
            ensures
                k * k <= num,
                num < (k + 1) * (k + 1),
            decreases 255 - k,
        {
            proof {
                assert((k as u32 + 1) * (k as u32 + 1) <= 65536) by (nonlinear_arith)
                    requires
                        k <= 255,
                ;
            }
            let next: u32 = (k as u32 + 1) * (k as u32 + 1);
            if next > num as u32 {
                break;
            }
            proof {
                assert(k + 1 <= 255) by (nonlinear_arith)
                    requires
                        (k + 1) * (k + 1) <= 65535,
                        1 <= k,
                ;
            }
            k = k + 1;
        }
        k
    }
}

} // verus!
