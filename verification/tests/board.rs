use tetris::board::Board;
use tetris::figure::{Figure, FigureKind};
use tetris::geometry::{Position, Size};

fn fill_row(board: &mut Board, row: usize) {
    for col in 0..board.size().width {
        board.set_cell(col, row, true);
    }
}

fn occupied_cells(board: &Board) -> Vec<(usize, usize)> {
    let mut cells = Vec::new();
    for row in 0..board.size().height {
        for col in 0..board.size().width {
            if board.get_cell(col, row) {
                cells.push((col, row));
            }
        }
    }
    cells
}

#[test]
fn new_board_is_empty() {
    let board = Board::new(Size { height: 20, width: 10 });
    assert_eq!(board.size().width, 10);
    assert_eq!(board.size().height, 20);
    assert!(occupied_cells(&board).is_empty());
}

#[test]
fn cells_off_the_board_read_as_occupied() {
    let board = Board::new(Size { height: 20, width: 10 });
    assert!(board.get_cell(10, 0));
    assert!(board.get_cell(0, 20));
    assert!(board.get_cell(10, 20));
    assert!(board.get_cell(usize::MAX, 3));
    assert!(board.get_cell(3, usize::MAX));
    assert!(!board.get_cell(9, 19));
    assert!(!board.get_cell(0, 0));
}

#[test]
fn set_cell_writes_one_cell() {
    let mut board = Board::new(Size { height: 4, width: 3 });
    board.set_cell(2, 1, true);
    assert_eq!(occupied_cells(&board), vec![(2, 1)]);
    board.set_cell(0, 3, true);
    assert_eq!(occupied_cells(&board), vec![(2, 1), (0, 3)]);
    board.set_cell(2, 1, false);
    assert_eq!(occupied_cells(&board), vec![(0, 3)]);
}

#[test]
fn set_cell_off_the_board_does_nothing() {
    let mut board = Board::new(Size { height: 4, width: 3 });
    board.set_cell(3, 0, true);
    board.set_cell(0, 4, true);
    board.set_cell(usize::MAX, usize::MAX, true);
    assert!(occupied_cells(&board).is_empty());
}

#[test]
fn clearing_an_empty_board_returns_zero() {
    let mut board = Board::new(Size { height: 20, width: 10 });
    assert_eq!(board.clear_full_lines(), 0);
    assert!(occupied_cells(&board).is_empty());
}

#[test]
fn clearing_without_a_full_row_changes_nothing() {
    let mut board = Board::new(Size { height: 6, width: 4 });
    board.set_cell(0, 5, true);
    board.set_cell(1, 5, true);
    board.set_cell(2, 5, true);
    board.set_cell(3, 2, true);
    let before = occupied_cells(&board);
    assert_eq!(board.clear_full_lines(), 0);
    assert_eq!(occupied_cells(&board), before);
}

#[test]
fn clearing_rows_two_and_five_of_ten_by_twenty() {
    let mut board = Board::new(Size { height: 20, width: 10 });
    fill_row(&mut board, 2);
    fill_row(&mut board, 5);
    board.set_cell(1, 0, true);
    board.set_cell(3, 1, true);
    board.set_cell(4, 3, true);
    board.set_cell(5, 4, true);
    board.set_cell(6, 7, true);
    board.set_cell(9, 19, true);
    assert_eq!(board.clear_full_lines(), 2);
    assert_eq!(
        occupied_cells(&board),
        vec![(1, 0), (3, 1), (4, 2), (5, 3), (6, 5), (9, 17)]
    );
    for col in 0..10 {
        assert!(!board.get_cell(col, 18));
        assert!(!board.get_cell(col, 19));
    }
}

#[test]
fn clearing_four_rows_at_once() {
    let mut board = Board::new(Size { height: 8, width: 5 });
    fill_row(&mut board, 1);
    fill_row(&mut board, 2);
    fill_row(&mut board, 4);
    fill_row(&mut board, 7);
    board.set_cell(0, 0, true);
    board.set_cell(1, 3, true);
    board.set_cell(2, 5, true);
    board.set_cell(3, 6, true);
    assert_eq!(board.clear_full_lines(), 4);
    assert_eq!(occupied_cells(&board), vec![(0, 0), (1, 1), (2, 2), (3, 3)]);
}

#[test]
fn clearing_a_board_that_is_all_full() {
    let mut board = Board::new(Size { height: 3, width: 2 });
    for row in 0..3 {
        fill_row(&mut board, row);
    }
    assert_eq!(board.clear_full_lines(), 3);
    assert!(occupied_cells(&board).is_empty());
}

#[test]
fn rows_of_a_board_without_columns_all_count_as_full() {
    let mut board = Board::new(Size { height: 3, width: 0 });
    assert_eq!(board.clear_full_lines(), 3);
    let mut none = Board::new(Size { height: 0, width: 4 });
    assert_eq!(none.clear_full_lines(), 0);
}

#[test]
fn figure_fits_on_empty_board_and_not_across_the_edge() {
    let board = Board::new(Size { height: 20, width: 10 });
    let figure = Figure::of_kind(FigureKind::T);
    assert!(board.can_place_figure(&figure, Position { x: 0, y: 0 }));
    assert!(board.can_place_figure(&figure, Position { x: 7, y: 18 }));
    assert!(!board.can_place_figure(&figure, Position { x: 8, y: 0 }));
    assert!(!board.can_place_figure(&figure, Position { x: 0, y: 19 }));
    assert!(!board.can_place_figure(&figure, Position { x: 255, y: 255 }));
}

#[test]
fn empty_cells_of_the_bounding_box_may_overlap() {
    let mut board = Board::new(Size { height: 4, width: 4 });
    // T is
    //   1 1 1
    //   0 1 0
    board.set_cell(0, 1, true);
    board.set_cell(2, 1, true);
    let figure = Figure::of_kind(FigureKind::T);
    assert!(board.can_place_figure(&figure, Position { x: 0, y: 0 }));
    board.set_cell(1, 1, true);
    assert!(!board.can_place_figure(&figure, Position { x: 0, y: 0 }));
}

#[test]
fn place_figure_sets_the_occupied_cells_only() {
    let mut board = Board::new(Size { height: 5, width: 6 });
    board.set_cell(5, 4, true);
    let figure = Figure::of_kind(FigureKind::J);
    // J is
    //   0 1
    //   0 1
    //   1 1
    board.place_figure(&figure, Position { x: 2, y: 1 });
    assert_eq!(
        occupied_cells(&board),
        vec![(3, 1), (3, 2), (2, 3), (3, 3), (5, 4)]
    );
}

#[test]
fn place_figure_passes_over_cells_off_the_board() {
    let mut board = Board::new(Size { height: 3, width: 3 });
    let figure = Figure::of_kind(FigureKind::I);
    board.place_figure(&figure, Position { x: 2, y: 1 });
    assert_eq!(occupied_cells(&board), vec![(2, 1), (2, 2)]);
    board.place_figure(&figure, Position { x: 3, y: 0 });
    assert_eq!(occupied_cells(&board), vec![(2, 1), (2, 2)]);
}

#[test]
fn shape_given_as_a_predicate() {
    let mut board = Board::new(Size { height: 4, width: 4 });
    let diagonal = |row: usize, col: usize| row == col;
    let size = Size { height: 3, width: 3 };
    assert!(board.can_place_figure_with_size(size, diagonal, Position { x: 1, y: 1 }));
    assert!(!board.can_place_figure_with_size(size, diagonal, Position { x: 2, y: 1 }));
    board.place_figure_with_size(size, diagonal, Position { x: 1, y: 0 });
    assert_eq!(occupied_cells(&board), vec![(1, 0), (2, 1), (3, 2)]);
    assert!(!board.can_place_figure_with_size(size, diagonal, Position { x: 1, y: 0 }));
    assert!(board.can_place_figure_with_size(size, diagonal, Position { x: 0, y: 0 }));
    assert!(board.can_place_figure_with_size(size, diagonal, Position { x: 0, y: 1 }));
    let nothing = |_row: usize, _col: usize| false;
    assert!(board.can_place_figure_with_size(size, nothing, Position { x: 200, y: 200 }));
}
