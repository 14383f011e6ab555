//! Tests of the move executor: heading rotations, pause gating, and the
//! kinematic round-trips from discrete moves through continuous animation
//! back to discrete position and heading commits.

use micromouse::mouse::Direction;
use micromouse::mouse::MazeEdges;
use micromouse::mouse::Mouse;
use micromouse::mouse::MouseState;
use micromouse::navigate::Inteligate;
use micromouse::plan::Move;

fn fresh_mouse() -> Mouse {
    Mouse::new(Inteligate::new(), MazeEdges::new_closed())
}

#[test]
fn turn_left_cycles_counter_clockwise() {
    let mut d = Direction::North;
    d.turn_left();
    assert_eq!(d, Direction::West);
    d.turn_left();
    assert_eq!(d, Direction::South);
    d.turn_left();
    assert_eq!(d, Direction::East);
    d.turn_left();
    assert_eq!(d, Direction::North);
}

#[test]
fn turn_right_cycles_clockwise() {
    let mut d = Direction::North;
    d.turn_right();
    assert_eq!(d, Direction::East);
    d.turn_right();
    assert_eq!(d, Direction::South);
    d.turn_right();
    assert_eq!(d, Direction::West);
    d.turn_right();
    assert_eq!(d, Direction::North);
}

#[test]
fn turn_around_is_a_half_turn() {
    // North and south swap, east and west swap.
    let mut d = Direction::North;
    d.turn_around();
    assert_eq!(d, Direction::South);
    let mut d = Direction::South;
    d.turn_around();
    assert_eq!(d, Direction::North);
    let mut d = Direction::East;
    d.turn_around();
    assert_eq!(d, Direction::West);
    let mut d = Direction::West;
    d.turn_around();
    assert_eq!(d, Direction::East);
    // Turning around twice comes back to the start.
    for start in [Direction::North, Direction::South, Direction::East, Direction::West] {
        let mut d = start;
        d.turn_around();
        d.turn_around();
        assert_eq!(d, start);
    }
}

#[test]
fn rotation_units_per_heading() {
    assert_eq!(Direction::North.rotation(), 0);
    assert_eq!(Direction::East.rotation(), 270000);
    assert_eq!(Direction::South.rotation(), 180000);
    assert_eq!(Direction::West.rotation(), 90000);
}

#[test]
fn paused_mouse_does_not_advance() {
    let mut mouse = fresh_mouse();
    mouse.queue_move(Move::Forward);
    // A fresh mouse is paused: ticks change nothing.
    mouse.run(50);
    assert_eq!(mouse.state, MouseState::Decision);
    assert_eq!(mouse.maze_location(), (0, 0, Direction::North));
    // After starting, the queued move is taken up.
    mouse.start();
    mouse.run(50);
    assert!(matches!(mouse.state, MouseState::MoveLinear(_, _)));
    // Stopping freezes the animation mid-move.
    mouse.stop();
    let frozen = mouse.state;
    mouse.run(50);
    assert_eq!(mouse.state, frozen);
}

#[test]
fn forward_round_trip_commits_one_cell() {
    let mut mouse = fresh_mouse();
    mouse.start();
    mouse.queue_move(Move::Forward);
    // Tick 1 dequeues the move and enters the linear state.
    mouse.run(50);
    assert_eq!(mouse.state, MouseState::MoveLinear(1000, 0));
    // 200 units per 50 ms tick: five ticks reach exactly one cell length
    // without overshooting; the discrete position must not move yet.
    for i in 1..=5 {
        mouse.run(50);
        assert_eq!(mouse.maze_location(), (0, 0, Direction::North));
        let (_, wy, _) = mouse.world_location();
        assert_eq!(wy, 200 * i);
    }
    // The sixth tick overshoots: exactly one cell north, offsets reset.
    mouse.run(50);
    assert_eq!(mouse.maze_location(), (0, 1, Direction::North));
    assert_eq!(mouse.state, MouseState::Decision);
    assert_eq!(mouse.world_location(), (0, 1000, 0));
}

#[test]
fn turn_left_round_trip_commits_one_quarter_counter_clockwise() {
    let mut mouse = fresh_mouse();
    mouse.start();
    mouse.queue_move(Move::TurnLeft);
    mouse.run(50);
    assert_eq!(mouse.state, MouseState::MoveTurn(-90000, 0));
    // 36000 angle units per 50 ms tick: two ticks stay under the quarter
    // turn, the heading holds.
    mouse.run(50);
    mouse.run(50);
    assert_eq!(mouse.maze_location(), (0, 0, Direction::North));
    let (_, _, rot) = mouse.world_location();
    assert_eq!(rot, -72000);
    // The third tick overshoots: one step counter-clockwise, offset reset.
    mouse.run(50);
    assert_eq!(mouse.maze_location(), (0, 0, Direction::West));
    assert_eq!(mouse.state, MouseState::Decision);
    let (_, _, rot) = mouse.world_location();
    assert_eq!(rot, 90000);
}

#[test]
fn turn_right_round_trip_commits_one_quarter_clockwise() {
    let mut mouse = fresh_mouse();
    mouse.start();
    mouse.queue_move(Move::TurnRight);
    mouse.run(50);
    assert_eq!(mouse.state, MouseState::MoveTurn(90000, 0));
    mouse.run(50);
    mouse.run(50);
    assert_eq!(mouse.maze_location(), (0, 0, Direction::North));
    mouse.run(50);
    assert_eq!(mouse.maze_location(), (0, 0, Direction::East));
    assert_eq!(mouse.state, MouseState::Decision);
}

#[test]
fn turn_around_commits_two_clockwise_quarters() {
    let mut mouse = fresh_mouse();
    mouse.start();
    mouse.queue_move(Move::TurnAround);
    mouse.run(50);
    assert_eq!(mouse.state, MouseState::MoveTurn(180000, 0));
    // 36000 per tick: five ticks reach 180000 exactly, the sixth commits.
    for _ in 0..5 {
        mouse.run(50);
        assert_eq!(mouse.maze_location(), (0, 0, Direction::North));
    }
    mouse.run(50);
    assert_eq!(mouse.maze_location(), (0, 0, Direction::South));
    assert_eq!(mouse.state, MouseState::Decision);
}

#[test]
fn queued_moves_run_in_production_order() {
    let mut mouse = fresh_mouse();
    mouse.start();
    mouse.queue_move(Move::TurnRight);
    mouse.queue_move(Move::Forward);
    // The turn was queued first, so it runs first.
    mouse.run(50);
    assert_eq!(mouse.state, MouseState::MoveTurn(90000, 0));
    for _ in 0..3 {
        mouse.run(50);
    }
    assert_eq!(mouse.maze_location(), (0, 0, Direction::East));
    // Now the forward move is taken up and commits one cell east.
    mouse.run(50);
    assert_eq!(mouse.state, MouseState::MoveLinear(1000, 0));
    for _ in 0..6 {
        mouse.run(50);
    }
    assert_eq!(mouse.maze_location(), (1, 0, Direction::East));
}

#[test]
fn empty_queue_consults_navigation_engine() {
    // Open the north edge of the start cell: the engine senses a forward
    // opening, proposes one forward move, and the executor takes it up in
    // the same tick.
    let mut edges = MazeEdges::new_closed();
    edges.set_cell_edges(0, 0, true, false, false, false);
    let mut mouse = Mouse::new(Inteligate::new(), edges);
    mouse.start();
    mouse.run(50);
    assert_eq!(mouse.state, MouseState::MoveLinear(1000, 0));
    // The engine walked its own bookkeeping forward as well.
    assert_eq!(mouse.nav.current_cell.row, 1);
    assert_eq!(mouse.nav.current_cell.col, 0);
    // Run the move out: the mouse commits one cell north.
    for _ in 0..6 {
        mouse.run(50);
    }
    assert_eq!(mouse.maze_location(), (0, 1, Direction::North));
    assert_eq!(mouse.state, MouseState::Decision);
}

#[test]
fn idle_engine_with_no_moves_stays_in_decision() {
    // At the goal the engine proposes nothing: the executor stays idle.
    let mut nav = Inteligate::new();
    nav.current_cell = micromouse::navigate::Cell::new(8, 8, 5);
    let mut mouse = Mouse::new(nav, MazeEdges::new_closed());
    mouse.start();
    mouse.run(50);
    assert_eq!(mouse.state, MouseState::Decision);
    assert_eq!(mouse.maze_location(), (0, 0, Direction::North));
    assert!(mouse.moves.is_empty());
}
