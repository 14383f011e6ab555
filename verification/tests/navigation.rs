//! Tests of the navigation engine: grid seeding, sentinel lookups, the
//! goal check, and full navigation steps including the exact argument
//! order of the decision and weight-update calls.

use micromouse::navigate::CardinalDirection;
use micromouse::navigate::Cell;
use micromouse::navigate::Inteligate;
use micromouse::navigate::MoveDirection;
use micromouse::plan::Move;
use micromouse::plan::MoveOptions;

#[test]
fn fresh_grid_is_distance_seeded() {
    let nav = Inteligate::new();
    // The seeding centre itself.
    assert_eq!(nav.grid_cell(4, 4).weight, 0);
    // Origin: squared distance 16 + 16 = 32, floor sqrt 5.
    let origin = nav.grid_cell(0, 0);
    assert_eq!(origin.row, 0);
    assert_eq!(origin.col, 0);
    assert_eq!(origin.weight, 5);
    // Farthest seeded corner: squared distance 100 + 100 = 200, floor sqrt 14.
    assert_eq!(nav.grid_cell(14, 14).weight, 14);
    // The goal coordinate is seeded like any other cell: the seeding bias
    // centre and the arrival coordinate are distinct.
    assert_eq!(nav.grid_cell(8, 8).weight, 5);
    // The cached current cell mirrors the origin's weight.
    assert_eq!(nav.current_cell, Cell::new(0, 0, 5));
    assert_eq!(nav.current_direction, CardinalDirection::North);
}

#[test]
fn fresh_grid_border_row_and_column_stay_invalid() {
    let nav = Inteligate::new();
    for i in 0..16 {
        let border_row = nav.grid_cell(15, i);
        assert_eq!((border_row.row, border_row.col, border_row.weight), (255, 255, 0xffff));
        let border_col = nav.grid_cell(i, 15);
        assert_eq!((border_col.row, border_col.col, border_col.weight), (255, 255, 0xffff));
    }
}

#[test]
fn neighbor_outside_grid_is_sentinel() {
    // At the origin facing north, backward points one step off the grid.
    let nav = Inteligate::new();
    let b = nav.neighbor(MoveDirection::Backward);
    assert_eq!(b.row, 255);
    assert_eq!(b.col, 255);
    assert_eq!(b.weight, 0xffff);
    // At the origin facing north, right points off the western side.
    let r = nav.neighbor(MoveDirection::Right);
    assert_eq!((r.row, r.col, r.weight), (255, 255, 0xffff));
    // In the far corner facing north, forward leaves the grid too.
    let mut nav = Inteligate::new();
    nav.current_cell = Cell::new(15, 8, 3);
    let f = nav.neighbor(MoveDirection::Forward);
    assert_eq!((f.row, f.col, f.weight), (255, 255, 0xffff));
}

#[test]
fn neighbor_follows_heading() {
    let mut nav = Inteligate::new();
    nav.current_cell = Cell::new(5, 5, 3);
    nav.current_direction = CardinalDirection::East;
    // Facing east: forward is one column east, left one row up.
    let f = nav.neighbor(MoveDirection::Forward);
    assert_eq!((f.row, f.col), (5, 6));
    let l = nav.neighbor(MoveDirection::Left);
    assert_eq!((l.row, l.col), (6, 5));
    let r = nav.neighbor(MoveDirection::Right);
    assert_eq!((r.row, r.col), (4, 5));
    let b = nav.neighbor(MoveDirection::Backward);
    assert_eq!((b.row, b.col), (5, 4));
}

#[test]
fn navigate_at_goal_returns_no_moves_and_keeps_grid() {
    let mut nav = Inteligate::new();
    nav.current_cell = Cell::new(8, 8, 10);
    let before: Vec<Cell> = (0..16)
        .flat_map(|r| (0..16).map(move |c| (r, c)))
        .map(|(r, c)| nav.grid_cell(r, c))
        .collect();
    let moves = nav.navigate(MoveOptions { forward: true, left: true, right: true });
    assert_eq!(moves, [None, None]);
    let after: Vec<Cell> = (0..16)
        .flat_map(|r| (0..16).map(move |c| (r, c)))
        .map(|(r, c)| nav.grid_cell(r, c))
        .collect();
    assert_eq!(before, after);
    // Only the cached visit counter grew.
    assert_eq!(nav.current_cell, Cell::new(8, 8, 11));
    assert_eq!(nav.current_direction, CardinalDirection::North);
}

#[test]
fn navigate_first_step_drives_forward() {
    let mut nav = Inteligate::new();
    let moves = nav.navigate(MoveOptions { forward: true, left: true, right: false });
    assert_eq!(moves, [Some(Move::Forward), None]);
    // The engine adopted the forward neighbour's snapshot.
    assert_eq!(nav.current_cell, Cell::new(1, 0, 5));
    assert_eq!(nav.current_direction, CardinalDirection::North);
    // The occupied cell took the bumped counter plus one: 5 + 1 + 1.
    assert_eq!(nav.grid_cell(0, 0).weight, 7);
}

#[test]
fn navigate_turn_updates_heading_and_cell() {
    let mut nav = Inteligate::new();
    nav.current_cell = Cell::new(5, 5, 3);
    // Facing north from (5, 5): forward (6, 5), left (5, 6), right (5, 4),
    // backward (4, 5).
    nav.maze[6][5] = Cell::new(6, 5, 9);
    nav.maze[5][6] = Cell::new(5, 6, 2);
    nav.maze[5][4] = Cell::new(5, 4, 0);
    nav.maze[4][5] = Cell::new(4, 5, 9);
    let moves = nav.navigate(MoveOptions { forward: false, left: true, right: false });
    assert_eq!(moves, [Some(Move::TurnLeft), Some(Move::Forward)]);
    // The chosen cell is the true left neighbour, and the heading rotated
    // counter-clockwise with it.
    assert_eq!(nav.current_cell, Cell::new(5, 6, 2));
    assert_eq!(nav.current_direction, CardinalDirection::West);
    // The left cell was open with a finite weight in the decision's view,
    // so the occupied cell took 3 + 1 + 1.
    assert_eq!(nav.grid_cell(5, 5).weight, 5);
}

#[test]
fn navigate_decision_reads_swapped_neighbour_slots() {
    // The decision call hands the right, backward and left neighbours to
    // the left, right and backward parameter slots. With the true left
    // neighbour at the global minimum but the right neighbour worst, the
    // rule falls through to backward: the plain order would have turned
    // left instead.
    let mut nav = Inteligate::new();
    nav.current_cell = Cell::new(5, 5, 3);
    nav.maze[6][5] = Cell::new(6, 5, 9);
    nav.maze[5][6] = Cell::new(5, 6, 1);
    nav.maze[5][4] = Cell::new(5, 4, 50);
    nav.maze[4][5] = Cell::new(4, 5, 7);
    let moves = nav.navigate(MoveOptions { forward: true, left: true, right: true });
    assert_eq!(moves, [Some(Move::TurnAround), Some(Move::Forward)]);
    assert_eq!(nav.current_cell, Cell::new(4, 5, 7));
}

#[test]
fn navigate_weight_update_reads_swapped_neighbour_slots() {
    // The weight update hands the right neighbour to the left slot. With
    // only the left flag open and the right neighbour a dead end, the
    // occupied cell is marked a dead end even though the true left
    // neighbour is finite.
    let mut nav = Inteligate::new();
    nav.current_cell = Cell::new(5, 5, 3);
    nav.maze[6][5] = Cell::new(6, 5, 5);
    nav.maze[5][6] = Cell::new(5, 6, 3);
    nav.maze[5][4] = Cell::new(5, 4, 0xffff);
    nav.maze[4][5] = Cell::new(4, 5, 7);
    let moves = nav.navigate(MoveOptions { forward: false, left: true, right: false });
    // The decision falls through to backward as well: the left slot holds
    // the sentinel.
    assert_eq!(moves, [Some(Move::TurnAround), Some(Move::Forward)]);
    assert_eq!(nav.grid_cell(5, 5).weight, 0xffff);
}
