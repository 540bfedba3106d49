use tetris::figure::{Figure, FigureKind};
use tetris::game::{exit_from_game, Action, GameState, Status, BOARD_HEIGHT, BOARD_WIDTH};
use tetris::geometry::{Direction, Position};

fn occupied_cells(state: &GameState) -> Vec<(usize, usize)> {
    let mut cells = Vec::new();
    for row in 0..BOARD_HEIGHT {
        for col in 0..BOARD_WIDTH {
            if state.board().get_cell(col, row) {
                cells.push((col, row));
            }
        }
    }
    cells
}

fn place_at(position: (u8, u8)) -> Position<u8> {
    Position { x: position.0, y: position.1 }
}

fn tick(state: &mut GameState, now: u64, actions: &[Action], next: FigureKind) {
    let draws = vec![next; actions.len() + 1];
    state.update_with(now, &actions.to_vec(), &draws);
}

/// Moves the falling piece to column `x`, turned as asked, and drops it.
fn drop_at(state: &mut GameState, x: u8, clockwise_turns: usize, next: FigureKind) {
    for _ in 0..clockwise_turns {
        state.apply(Action::RotateClockwise, next, 0);
    }
    for _ in 0..BOARD_WIDTH {
        state.apply(Action::MoveLeft, next, 0);
    }
    for _ in 0..x {
        state.apply(Action::MoveRight, next, 0);
    }
    assert_eq!(state.current_figure_position().x, x);
    state.apply(Action::Drop, next, 0);
}

#[test]
fn a_round_begins_at_the_top_middle() {
    let state = GameState::with_figures(3, FigureKind::T, FigureKind::L, 77);
    assert_eq!(state.current_figure(), FigureKind::T);
    assert_eq!(state.next_figure(), FigureKind::L);
    assert_eq!(state.current_figure_position(), place_at((5, 0)));
    assert_eq!(state.current_figure_rotation(), Direction::South);
    assert_eq!(state.level(), 3);
    assert_eq!(state.score(), 0);
    assert_eq!(state.lines_hit(), 0);
    assert!(!state.is_paused());
    assert!(state.is_running());
    assert_eq!(state.status(), Status::Running);
    assert_eq!(state.elapsed(1_077), 1_000);
    assert_eq!(state.board().size().width, 10);
    assert_eq!(state.board().size().height, 15);
    assert!(occupied_cells(&state).is_empty());
}

#[test]
fn a_round_with_random_pieces_begins_the_same_way() {
    let state = GameState::new(0, 5);
    assert_eq!(state.current_figure_position(), place_at((5, 0)));
    assert_eq!(state.current_figure_rotation(), Direction::South);
    assert_eq!(state.level(), 0);
    assert_eq!(state.score(), 0);
    assert!(state.is_running());
    assert!(occupied_cells(&state).is_empty());
    assert_eq!(state.figure_lowering_duration(), 800_000);
}

#[test]
fn twenty_moves_left_stop_at_column_zero() {
    for kind in FigureKind::all() {
        let mut state = GameState::with_figures(0, kind, FigureKind::O, 0);
        tick(&mut state, 1, &[Action::MoveLeft; 20], FigureKind::O);
        assert_eq!(state.current_figure_position(), place_at((0, 0)));
        assert!(state.is_running());
    }
}

#[test]
fn twenty_moves_right_stop_at_the_wall() {
    let mut state = GameState::with_figures(0, FigureKind::T, FigureKind::O, 0);
    tick(&mut state, 1, &[Action::MoveRight; 20], FigureKind::O);
    assert_eq!(state.current_figure_position(), place_at((7, 0)));
    let mut state = GameState::with_figures(0, FigureKind::I, FigureKind::O, 0);
    tick(&mut state, 1, &[Action::MoveRight; 20], FigureKind::O);
    assert_eq!(state.current_figure_position(), place_at((9, 0)));
}

#[test]
fn a_turn_that_does_not_fit_is_refused() {
    let mut state = GameState::with_figures(0, FigureKind::I, FigureKind::O, 0);
    tick(&mut state, 1, &[Action::MoveRight; 4], FigureKind::O);
    assert_eq!(state.current_figure_position(), place_at((9, 0)));
    tick(&mut state, 2, &[Action::RotateClockwise], FigureKind::O);
    assert_eq!(state.current_figure_rotation(), Direction::South);
    tick(&mut state, 3, &[Action::RotateCounterClockwise], FigureKind::O);
    assert_eq!(state.current_figure_rotation(), Direction::South);
    tick(&mut state, 4, &[Action::MoveLeft, Action::MoveLeft, Action::MoveLeft], FigureKind::O);
    tick(&mut state, 5, &[Action::RotateClockwise], FigureKind::O);
    assert_eq!(state.current_figure_rotation(), Direction::East);
    assert_eq!(state.current_figure_position(), place_at((6, 0)));
    tick(&mut state, 6, &[Action::RotateCounterClockwise], FigureKind::O);
    assert_eq!(state.current_figure_rotation(), Direction::South);
    tick(&mut state, 7, &[Action::RotateCounterClockwise], FigureKind::O);
    assert_eq!(state.current_figure_rotation(), Direction::West);
}

#[test]
fn move_down_goes_one_row_and_restarts_the_fall_timer() {
    let mut state = GameState::with_figures(0, FigureKind::O, FigureKind::T, 0);
    tick(&mut state, 700_000, &[Action::MoveDown], FigureKind::T);
    assert_eq!(state.current_figure_position(), place_at((5, 1)));
    assert!(!state.gravity_due(1_500_000));
    assert!(state.gravity_due(1_500_001));
    tick(&mut state, 1_500_000, &[], FigureKind::T);
    assert_eq!(state.current_figure_position(), place_at((5, 1)));
    tick(&mut state, 1_500_001, &[], FigureKind::T);
    assert_eq!(state.current_figure_position(), place_at((5, 2)));
}

#[test]
fn gravity_waits_for_more_than_the_interval() {
    let mut state = GameState::with_figures(0, FigureKind::O, FigureKind::T, 1_000);
    tick(&mut state, 801_000, &[], FigureKind::T);
    assert_eq!(state.current_figure_position(), place_at((5, 0)));
    tick(&mut state, 801_001, &[], FigureKind::T);
    assert_eq!(state.current_figure_position(), place_at((5, 1)));
    tick(&mut state, 0, &[], FigureKind::T);
    assert_eq!(state.current_figure_position(), place_at((5, 1)));
    let mut fast = GameState::with_figures(29, FigureKind::O, FigureKind::T, 0);
    assert_eq!(fast.figure_lowering_duration(), 17_000);
    tick(&mut fast, 17_001, &[], FigureKind::T);
    assert_eq!(fast.current_figure_position(), place_at((5, 1)));
}

#[test]
fn actions_come_before_gravity() {
    let mut state = GameState::with_figures(0, FigureKind::O, FigureKind::T, 0);
    tick(&mut state, 900_000, &[Action::MoveLeft], FigureKind::T);
    assert_eq!(state.current_figure_position(), place_at((4, 1)));
    tick(&mut state, 1_800_000, &[Action::MoveDown], FigureKind::T);
    assert_eq!(state.current_figure_position(), place_at((4, 2)));
}

#[test]
fn move_down_on_the_floor_locks_the_piece() {
    let mut state = GameState::with_figures(0, FigureKind::O, FigureKind::T, 0);
    for _ in 0..13 {
        assert!(!state.locks_on(Action::MoveDown));
        state.apply(Action::MoveDown, FigureKind::S, 10);
    }
    assert_eq!(state.current_figure_position(), place_at((5, 13)));
    assert!(state.locks_on(Action::MoveDown));
    assert!(state.locks_on(Action::Drop));
    assert!(!state.locks_on(Action::MoveLeft));
    state.apply(Action::MoveDown, FigureKind::S, 20);
    assert_eq!(occupied_cells(&state), vec![(5, 13), (6, 13), (5, 14), (6, 14)]);
    assert_eq!(state.current_figure(), FigureKind::T);
    assert_eq!(state.next_figure(), FigureKind::S);
    assert_eq!(state.current_figure_position(), place_at((5, 0)));
    assert_eq!(state.current_figure_rotation(), Direction::South);
    assert_eq!(state.score(), 0);
    assert!(state.is_running());
    assert!(!state.gravity_due(800_020));
    assert!(state.gravity_due(800_021));
}

#[test]
fn drop_falls_to_the_lowest_row_and_locks() {
    let mut state = GameState::with_figures(0, FigureKind::I, FigureKind::L, 0);
    state.apply(Action::Drop, FigureKind::Z, 0);
    assert_eq!(occupied_cells(&state), vec![(5, 11), (5, 12), (5, 13), (5, 14)]);
    assert_eq!(state.current_figure(), FigureKind::L);
    assert_eq!(state.next_figure(), FigureKind::Z);
    state.apply(Action::Drop, FigureKind::Z, 0);
    // L is
    //   1 0
    //   1 0
    //   1 1
    // and comes to rest on the I with its foot beside it at column 6.
    assert_eq!(
        occupied_cells(&state),
        vec![(5, 8), (5, 9), (5, 10), (6, 10), (5, 11), (5, 12), (5, 13), (5, 14)]
    );
    assert_eq!(state.score(), 0);
}

#[test]
fn one_line_brings_forty_points() {
    let mut state = GameState::with_figures(0, FigureKind::I, FigureKind::I, 0);
    drop_at(&mut state, 0, 1, FigureKind::O);
    drop_at(&mut state, 4, 1, FigureKind::T);
    assert_eq!(state.score(), 0);
    assert_eq!(state.current_figure(), FigureKind::O);
    drop_at(&mut state, 8, 0, FigureKind::T);
    assert_eq!(state.score(), 40);
    assert_eq!(state.lines_hit(), 1);
    assert_eq!(occupied_cells(&state), vec![(8, 13), (9, 13)]);
}

#[test]
fn two_lines_bring_a_hundred_points() {
    let mut state = GameState::with_figures(0, FigureKind::O, FigureKind::O, 0);
    for x in [0u8, 2, 4, 6] {
        drop_at(&mut state, x, 0, FigureKind::O);
        assert_eq!(state.score(), 0);
    }
    drop_at(&mut state, 8, 0, FigureKind::O);
    assert_eq!(state.score(), 100);
    assert_eq!(state.lines_hit(), 2);
    assert!(occupied_cells(&state).is_empty());
}

#[test]
fn three_lines_bring_three_hundred_points() {
    let mut state = GameState::with_figures(0, FigureKind::I, FigureKind::I, 0);
    // Three layers of two lying pieces each fill columns 0 to 7 of rows 12 to 14.
    for _ in 0..3 {
        drop_at(&mut state, 0, 1, FigureKind::I);
        drop_at(&mut state, 4, 1, FigureKind::I);
    }
    // Two standing pieces fill columns 8 and 9 of rows 11 to 14.
    drop_at(&mut state, 8, 0, FigureKind::I);
    assert_eq!(state.score(), 0);
    assert_eq!(state.lines_hit(), 0);
    drop_at(&mut state, 9, 0, FigureKind::I);
    assert_eq!(state.score(), 300);
    assert_eq!(state.lines_hit(), 3);
    assert_eq!(occupied_cells(&state), vec![(8, 11), (9, 11)]);
}

#[test]
fn four_lines_bring_twelve_hundred_points() {
    let mut state = GameState::with_figures(0, FigureKind::I, FigureKind::I, 0);
    for x in 0..9u8 {
        drop_at(&mut state, x, 0, FigureKind::I);
        assert_eq!(state.score(), 0);
    }
    drop_at(&mut state, 9, 0, FigureKind::I);
    assert_eq!(state.score(), 1200);
    assert_eq!(state.lines_hit(), 4);
    assert_eq!(state.level(), 0);
    assert!(occupied_cells(&state).is_empty());
}

#[test]
fn points_are_counted_at_the_level_reached() {
    let mut state = GameState::with_figures(5, FigureKind::I, FigureKind::I, 0);
    for x in 0..10u8 {
        drop_at(&mut state, x, 0, FigureKind::I);
    }
    assert_eq!(state.score(), 1200 * 6);
    for x in 0..10u8 {
        drop_at(&mut state, x, 0, FigureKind::I);
    }
    assert_eq!(state.score(), 2 * 1200 * 6);
    assert_eq!(state.lines_hit(), 8);
    for x in 0..10u8 {
        drop_at(&mut state, x, 0, FigureKind::I);
    }
    // Twelve lines: the level is now 6, and the third clear counts at it.
    assert_eq!(state.lines_hit(), 12);
    assert_eq!(state.level(), 6);
    assert_eq!(state.score(), 2 * 1200 * 6 + 1200 * 7);
    assert_eq!(state.figure_lowering_duration(), 299_000);
}

#[test]
fn a_paused_round_stands_still() {
    let mut state = GameState::with_figures(0, FigureKind::T, FigureKind::O, 0);
    tick(&mut state, 100_000, &[Action::TogglePause], FigureKind::O);
    assert!(state.is_paused());
    assert!(state.is_running());
    assert_eq!(state.elapsed(100_000), 100_000);
    tick(&mut state, 5_000_000, &[], FigureKind::O);
    tick(
        &mut state,
        9_000_000,
        &[Action::MoveLeft, Action::MoveDown, Action::Drop, Action::RotateClockwise],
        FigureKind::O,
    );
    assert_eq!(state.current_figure_position(), place_at((5, 0)));
    assert_eq!(state.current_figure_rotation(), Direction::South);
    assert!(occupied_cells(&state).is_empty());
    assert_eq!(state.elapsed(9_000_000), 100_000);
    assert!(!state.gravity_due(9_000_000));
    tick(&mut state, 10_000_000, &[Action::TogglePause], FigureKind::O);
    assert!(!state.is_paused());
    assert_eq!(state.current_figure_position(), place_at((5, 0)));
    assert_eq!(state.elapsed(10_000_000), 100_000);
    assert_eq!(state.elapsed(10_250_000), 350_000);
    tick(&mut state, 10_800_000, &[], FigureKind::O);
    assert_eq!(state.current_figure_position(), place_at((5, 0)));
    tick(&mut state, 10_800_001, &[], FigureKind::O);
    assert_eq!(state.current_figure_position(), place_at((5, 1)));
}

#[test]
fn pause_is_switched_before_the_moves_of_its_batch() {
    let mut state = GameState::with_figures(0, FigureKind::T, FigureKind::O, 0);
    tick(&mut state, 10, &[Action::MoveLeft, Action::TogglePause], FigureKind::O);
    assert!(state.is_paused());
    assert_eq!(state.current_figure_position(), place_at((5, 0)));
    tick(&mut state, 20, &[Action::MoveLeft, Action::TogglePause, Action::MoveLeft], FigureKind::O);
    assert!(!state.is_paused());
    assert_eq!(state.current_figure_position(), place_at((3, 0)));
}

#[test]
fn exit_ends_the_round_before_anything_else() {
    let mut state = GameState::with_figures(0, FigureKind::T, FigureKind::O, 0);
    tick(&mut state, 2_000_000, &[Action::MoveLeft, Action::Exit, Action::Drop], FigureKind::O);
    assert_eq!(state.status(), Status::Exited);
    assert!(!state.is_running());
    assert_eq!(state.current_figure_position(), place_at((5, 0)));
    tick(&mut state, 4_000_000, &[Action::MoveLeft, Action::Drop], FigureKind::O);
    assert_eq!(state.current_figure_position(), place_at((5, 0)));
    assert!(occupied_cells(&state).is_empty());
    assert_eq!(state.status(), Status::Exited);
}

#[test]
fn exit_from_game_ends_a_running_round() {
    let mut state = GameState::with_figures(0, FigureKind::T, FigureKind::O, 0);
    exit_from_game(&mut state);
    assert_eq!(state.status(), Status::Exited);
    assert!(!state.is_running());
    exit_from_game(&mut state);
    assert_eq!(state.status(), Status::Exited);
}

#[test]
fn idle_actions_change_nothing() {
    let mut state = GameState::with_figures(0, FigureKind::T, FigureKind::O, 0);
    tick(&mut state, 5, &[Action::Idle, Action::Idle], FigureKind::O);
    assert_eq!(state.current_figure_position(), place_at((5, 0)));
    assert!(state.is_running());
    assert!(!state.is_paused());
}

#[test]
fn a_piece_without_room_ends_the_round() {
    let mut state = GameState::with_figures(0, FigureKind::O, FigureKind::O, 0);
    for landed in 1..=6usize {
        state.apply(Action::Drop, FigureKind::O, 0);
        assert!(state.is_running());
        assert_eq!(occupied_cells(&state).len(), 4 * landed);
    }
    state.apply(Action::Drop, FigureKind::O, 0);
    assert_eq!(state.status(), Status::GameOver);
    assert!(!state.is_running());
    let cells = occupied_cells(&state);
    assert_eq!(cells.len(), 28);
    assert!(cells.contains(&(5, 1)));
    assert!(!cells.contains(&(5, 0)));
    let score = state.score();
    state.apply(Action::Drop, FigureKind::O, 0);
    state.apply(Action::MoveLeft, FigureKind::O, 0);
    tick(&mut state, 50_000_000, &[Action::MoveDown, Action::TogglePause], FigureKind::O);
    state.update(90_000_000, &vec![Action::Drop, Action::MoveDown]);
    assert_eq!(occupied_cells(&state), cells);
    assert_eq!(state.status(), Status::GameOver);
    assert_eq!(state.score(), score);
    assert_eq!(state.current_figure_position(), place_at((5, 0)));
    assert!(!state.is_paused());
    assert!(!state.locks_on(Action::Drop));
    assert!(!state.gravity_due(u64::MAX));
}

#[test]
fn rotated_placement_on_the_round_board() {
    let mut state = GameState::with_figures(0, FigureKind::O, FigureKind::O, 0);
    let figure = Figure::of_kind(FigureKind::I);
    assert!(state.can_place_rotated_figure(&figure, Direction::East, place_at((6, 14))));
    assert!(!state.can_place_rotated_figure(&figure, Direction::East, place_at((7, 14))));
    assert!(!state.can_place_rotated_figure(&figure, Direction::South, place_at((6, 12))));
    assert!(state.can_place_rotated_figure(&figure, Direction::North, place_at((9, 11))));
    state.place_rotated_figure(&figure, Direction::West, place_at((2, 3)));
    assert_eq!(occupied_cells(&state), vec![(2, 3), (3, 3), (4, 3), (5, 3)]);
    assert!(!state.can_place_rotated_figure(&figure, Direction::South, place_at((4, 0))));
    assert!(state.can_place_rotated_figure(&figure, Direction::South, place_at((6, 0))));
    let tee = Figure::of_kind(FigureKind::T);
    state.place_rotated_figure(&tee, Direction::East, place_at((0, 12)));
    // T seen from the East is
    //   0 1
    //   1 1
    //   0 1
    assert_eq!(
        occupied_cells(&state),
        vec![(2, 3), (3, 3), (4, 3), (5, 3), (1, 12), (0, 13), (1, 13), (1, 14)]
    );
}

#[test]
fn every_piece_fits_anywhere_inside_the_empty_board() {
    let state = GameState::with_figures(0, FigureKind::O, FigureKind::O, 0);
    for kind in FigureKind::all() {
        let figure = Figure::of_kind(kind);
        for direction in [Direction::South, Direction::East, Direction::North, Direction::West] {
            let size = figure.rotated_size(direction);
            for y in 0..=(BOARD_HEIGHT - size.height) {
                for x in 0..=(BOARD_WIDTH - size.width) {
                    assert!(state.can_place_rotated_figure(
                        &figure,
                        direction,
                        place_at((x as u8, y as u8))
                    ));
                }
            }
            assert!(!state.can_place_rotated_figure(
                &figure,
                direction,
                place_at(((BOARD_WIDTH - size.width + 1) as u8, 0))
            ));
            assert!(!state.can_place_rotated_figure(
                &figure,
                direction,
                place_at((0, (BOARD_HEIGHT - size.height + 1) as u8))
            ));
        }
    }
}

#[test]
fn random_rounds_run_to_their_end() {
    let mut state = GameState::new(0, 0);
    let mut now = 0u64;
    let mut ticks = 0;
    while state.is_running() && ticks < 10_000 {
        now += 1_000;
        state.update(now, &vec![Action::MoveLeft, Action::Drop]);
        ticks += 1;
        if state.is_running() {
            let figure = Figure::of_kind(state.current_figure());
            assert!(state.can_place_rotated_figure(
                &figure,
                state.current_figure_rotation(),
                state.current_figure_position()
            ));
        }
    }
    assert_eq!(state.status(), Status::GameOver);
    assert!(ticks < 10_000);
    assert!(!occupied_cells(&state).is_empty());
    let cells = occupied_cells(&state);
    state.update(now + 5_000_000, &vec![Action::Drop]);
    assert_eq!(occupied_cells(&state), cells);
}

#[test]
fn the_falling_piece_never_overlaps_while_the_round_goes_on() {
    let batch = vec![
        Action::RotateClockwise,
        Action::MoveRight,
        Action::MoveDown,
        Action::RotateCounterClockwise,
        Action::MoveLeft,
        Action::MoveLeft,
        Action::MoveDown,
    ];
    let mut state = GameState::new(9, 0);
    let mut now = 0u64;
    for _ in 0..5_000 {
        if !state.is_running() {
            break;
        }
        now += 60_000;
        state.update(now, &batch);
        if state.is_running() {
            let figure = Figure::of_kind(state.current_figure());
            assert!(state.can_place_rotated_figure(
                &figure,
                state.current_figure_rotation(),
                state.current_figure_position()
            ));
        }
        assert!(state.level() <= 29);
    }
    assert!(!state.is_running());
}
