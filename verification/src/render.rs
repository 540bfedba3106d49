use vstd::prelude::*;
use vstd::string::*;
use crate::board::covered;
use crate::figure::{cell_in, view_stays_in_box, Figure, FigureKind};
use crate::game::{GameState, GameView, BOARD_HEIGHT, BOARD_WIDTH};
use crate::text::{
    append_centered, append_padded, append_repeated, centered, clock, clock_string, decimal,
    decimal_string, flattened, join_side_by_side, padded, repeated, required_width, side_by_side,
    texts, widest,
};

verus! {

/// The words before the level, the time and the points.
pub open spec fn stat_labels() -> Seq<Seq<char>> {
    seq!["УРОВЕНЬ:"@, "ВРЕМЯ:"@, "СЧЁТ:"@]
}

/// The level, the time played in minutes and seconds, and the points, as texts.
pub open spec fn stat_values(view: GameView, seconds: nat) -> Seq<Seq<char>> {
    seq![decimal(view.level() as nat), clock(seconds), decimal(view.score as nat)]
}

/// One line of the status block: a word filled up to `label_width`, a space, and a value
/// filled up to `value_width`.
pub open spec fn stat_line(
    label: Seq<char>,
    value: Seq<char>,
    label_width: nat,
    value_width: nat,
) -> Seq<char> {
    padded(label, label_width) + " "@ + padded(value, value_width)
}

/// The three lines of level, time and points, the words in one column and the values in
/// another.
pub open spec fn stat_lines(view: GameView, seconds: nat) -> Seq<Seq<char>> {
    Seq::new(
        3,
        |i: int|
            stat_line(
                stat_labels()[i],
                stat_values(view, seconds)[i],
                widest(stat_labels()),
                widest(stat_values(view, seconds)),
            ),
    )
}

/// One row of the picture of a piece: two spaces, then two characters for each cell.
pub open spec fn preview_row(kind: FigureKind, row: int) -> Seq<char> {
    "  "@ + flattened(
        kind.spec_size().width as nat,
        |col: int|
            if cell_in(kind.spec_size(), kind.spec_occupancy(), row, col) {
                "[]"@
            } else {
                "  "@
            },
    )
}

/// The status block: level, time and points, a blank line, and below it the picture of the
/// piece to come, centred. The picture is left out while the round is paused.
pub open spec fn stats_block(view: GameView, seconds: nat) -> Seq<Seq<char>> {
    let lines = stat_lines(view, seconds);
    let width = widest(lines);
    lines.push(repeated(" "@, width)) + if view.paused {
        Seq::empty()
    } else {
        Seq::new(
            view.next.spec_size().height as nat,
            |row: int| centered(preview_row(view.next, row), width),
        )
    }
}

/// Whether the falling piece is shown at column `x`, row `y`. It is hidden while the round
/// is paused.
pub open spec fn shows_piece(view: GameView, x: int, y: int) -> bool {
    !view.paused && covered(
        view.figure.shape(view.rotation),
        view.figure.rotated_size(view.rotation),
        view.position,
        x,
        y,
    )
}

/// One row of the playfield between its borders: two characters for each cell, a block where
/// the cell is locked or the falling piece is shown there.
pub open spec fn field_row(view: GameView, row: int) -> Seq<char> {
    "<!"@ + flattened(
        BOARD_WIDTH as nat,
        |col: int|
            if view.rows[row][col] || shows_piece(view, col, row) {
                "[]"@
            } else {
                " ."@
            },
    ) + "!>"@
}

/// The row that tells of the pause, between the borders.
pub open spec fn banner_row() -> Seq<char> {
    "<!"@ + centered("PAUSED"@, (2 * BOARD_WIDTH) as nat) + "!>"@
}

/// The playfield block: its rows between the borders, the floor, and the closing line. While
/// the round is paused the middle row tells so.
pub open spec fn field_block(view: GameView) -> Seq<Seq<char>> {
    Seq::new(
        (BOARD_HEIGHT + 2) as nat,
        |i: int|
            if i < BOARD_HEIGHT {
                if view.paused && i == BOARD_HEIGHT / 2 {
                    banner_row()
                } else {
                    field_row(view, i)
                }
            } else if i == BOARD_HEIGHT {
                "<!"@ + repeated("=="@, BOARD_WIDTH as nat) + "!>"@
            } else {
                "  "@ + repeated("\\/"@, BOARD_WIDTH as nat) + "  "@
            },
    )
}

/// The rows to show for a round that has been played for `seconds`: the status block at the
/// left, the playfield block at the right.
pub open spec fn frame(view: GameView, seconds: nat) -> Seq<Seq<char>> {
    side_by_side(stats_block(view, seconds), field_block(view))
}

/// One line of the status block.
fn stat_line_string(label: &str, value: &str, label_width: usize, value_width: usize) -> (line:
    String)
    ensures
        line@ == stat_line(label@, value@, label_width as nat, value_width as nat),
{
    let mut line = String::new();
    append_padded(&mut line, label, label_width);
    line.append(" ");
    append_padded(&mut line, value, value_width);
    assert(line@ =~= stat_line(label@, value@, label_width as nat, value_width as nat));
    line
}

/// One row of the picture of a piece.
fn preview_row_string(figure: &Figure, kind: Ghost<FigureKind>, row: usize) -> (line: String)
    requires
        figure.wf(),
        figure.spec_size() == kind@.spec_size(),
        figure.occupancy() == kind@.spec_occupancy(),
    ensures
        line@ == preview_row(kind@, row as int),
{
    let width = figure.size().width;
    let ghost piece = |col: int|
        if cell_in(kind@.spec_size(), kind@.spec_occupancy(), row as int, col) {
            "[]"@
        } else {
            "  "@
        };
    let mut line = String::from_str("  ");
    let mut col: usize = 0;
    assert(line@ =~= "  "@ + flattened(0, piece));
    while col < width
        invariant
            figure.wf(),
            figure.spec_size() == kind@.spec_size(),
            figure.occupancy() == kind@.spec_occupancy(),
            width == figure.spec_size().width,
            col <= width,
            piece == |col: int|
                if cell_in(kind@.spec_size(), kind@.spec_occupancy(), row as int, col) {
                    "[]"@
                } else {
                    "  "@
                },
            line@ == "  "@ + flattened(col as nat, piece),
        decreases width - col,
    {
        if figure.cell(row, col) {
            line.append("[]");
        } else {
            line.append("  ");
        }
        col += 1;
        assert(line@ =~= "  "@ + flattened(col as nat, piece));
    }
    line
}

impl GameState {
    /// One row of the playfield between its borders.
    fn field_row_string(&self, figure: &Figure, row: usize) -> (line: String)
        requires
            self.wf(),
            row < BOARD_HEIGHT,
            figure.wf(),
            figure.spec_size() == self@.figure.spec_size(),
            figure.occupancy() == self@.figure.spec_occupancy(),
        ensures
            line@ == field_row(self@, row as int),
    {
        let position = self.current_figure_position();
        let rotation = self.current_figure_rotation();
        let paused = self.is_paused();
        let size = figure.rotated_size(rotation);
        let pos_x: usize = position.x as usize;
        let pos_y: usize = position.y as usize;
        let ghost view = self@;
        let ghost piece = |col: int|
            if view.rows[row as int][col] || shows_piece(view, col, row as int) {
                "[]"@
            } else {
                " ."@
            };
        let mut line = String::from_str("<!");
        let mut col: usize = 0;
        assert(line@ =~= "<!"@ + flattened(0, piece));
        while col < BOARD_WIDTH
            invariant
                self.wf(),
                view == self@,
                row < BOARD_HEIGHT,
                figure.wf(),
                figure.spec_size() == view.figure.spec_size(),
                figure.occupancy() == view.figure.spec_occupancy(),
                position == view.position,
                rotation == view.rotation,
                paused == view.paused,
                size == view.figure.rotated_size(rotation),
                pos_x == position.x,
                pos_y == position.y,
                col <= BOARD_WIDTH,
                piece == |col: int|
                    if view.rows[row as int][col] || shows_piece(view, col, row as int) {
                        "[]"@
                    } else {
                        " ."@
                    },
                line@ == "<!"@ + flattened(col as nat, piece),
            decreases BOARD_WIDTH - col,
        {
            let falls = !paused && row >= pos_y && col >= pos_x && figure.rotated_cell(
                rotation,
                row - pos_y,
                col - pos_x,
            );
            proof {
                if row >= pos_y && col >= pos_x && figure.spec_rotated_cell(
                    rotation,
                    row - pos_y,
                    col - pos_x,
                ) {
                    view_stays_in_box(
                        figure.spec_size(),
                        figure.occupancy(),
                        rotation,
                        row - pos_y,
                        col - pos_x,
                    );
                }
                assert(falls == shows_piece(view, col as int, row as int));
            }
            let locked = self.board().get_cell(col, row);
            if locked || falls {
                line.append("[]");
            } else {
                line.append(" .");
            }
            col += 1;
            assert(line@ =~= "<!"@ + flattened(col as nat, piece));
        }
        line.append("!>");
        assert(line@ =~= field_row(view, row as int));
        line
    }

    /// The playfield block.
    fn field_block_strings(&self) -> (lines: Vec<String>)
        requires
            self.wf(),
        ensures
            texts(lines@) == field_block(self@),
    {
        let figure = Figure::of_kind(self.current_figure());
        let paused = self.is_paused();
        let mut lines: Vec<String> = Vec::new();
        let mut row: usize = 0;
        while row < BOARD_HEIGHT
            invariant
                self.wf(),
                figure.wf(),
                figure.spec_size() == self@.figure.spec_size(),
                figure.occupancy() == self@.figure.spec_occupancy(),
                paused == self@.paused,
                row <= BOARD_HEIGHT,
                lines@.len() == row,
                forall|i: int| 0 <= i < row ==> (#[trigger] lines@[i])@ == field_block(self@)[i],
            decreases BOARD_HEIGHT - row,
        {
            if paused && row == BOARD_HEIGHT / 2 {
                let mut line = String::from_str("<!");
                append_centered(&mut line, "PAUSED", 2 * BOARD_WIDTH);
                line.append("!>");
                assert(line@ =~= banner_row());
                lines.push(line);
            } else {
                let line = self.field_row_string(&figure, row);
                lines.push(line);
            }
            row += 1;
        }
        let mut floor = String::from_str("<!");
        append_repeated(&mut floor, "==", BOARD_WIDTH);
        floor.append("!>");
        assert(floor@ =~= "<!"@ + repeated("=="@, BOARD_WIDTH as nat) + "!>"@);
        lines.push(floor);
        let mut closing = String::from_str("  ");
        append_repeated(&mut closing, "\\/", BOARD_WIDTH);
        closing.append("  ");
        assert(closing@ =~= "  "@ + repeated("\\/"@, BOARD_WIDTH as nat) + "  "@);
        lines.push(closing);
        assert(texts(lines@) =~= field_block(self@));
        lines
    }

    /// The status block for a round that has been played for `seconds`.
    fn stats_block_strings(&self, seconds: u64) -> (lines: Vec<String>)
        requires
            self.wf(),
        ensures
            texts(lines@) == stats_block(self@, seconds as nat),
    {
        let mut labels: Vec<String> = Vec::new();
        labels.push(String::from_str("УРОВЕНЬ:"));
        labels.push(String::from_str("ВРЕМЯ:"));
        labels.push(String::from_str("СЧЁТ:"));
        let mut values: Vec<String> = Vec::new();
        values.push(decimal_string(self.level() as u64));
        values.push(clock_string(seconds));
        values.push(decimal_string(self.score()));
        assert(texts(labels@) =~= stat_labels());
        assert(texts(values@) =~= stat_values(self@, seconds as nat));
        let label_width = required_width(&labels);
        let value_width = required_width(&values);
        let mut lines: Vec<String> = Vec::new();
        let mut i: usize = 0;
        while i < 3
            invariant
                i <= 3,
                labels@.len() == 3,
                values@.len() == 3,
                texts(labels@) == stat_labels(),
                texts(values@) == stat_values(self@, seconds as nat),
                label_width == widest(stat_labels()),
                value_width == widest(stat_values(self@, seconds as nat)),
                lines@.len() == i,
                forall|k: int|
                    0 <= k < i ==> (#[trigger] lines@[k])@ == stat_lines(self@, seconds as nat)[k],
            decreases 3 - i,
        {
            assert(texts(labels@)[i as int] == labels@[i as int]@);
            assert(texts(values@)[i as int] == values@[i as int]@);
            let line = stat_line_string(
                labels[i].as_str(),
                values[i].as_str(),
                label_width,
                value_width,
            );
            lines.push(line);
            i += 1;
        }
        assert(texts(lines@) =~= stat_lines(self@, seconds as nat));
        let width = required_width(&lines);
        let ghost head = stat_lines(self@, seconds as nat);
        let mut blank = String::new();
        append_repeated(&mut blank, " ", width);
        assert(blank@ =~= repeated(" "@, width as nat));
        lines.push(blank);
        assert(texts(lines@) =~= head.push(repeated(" "@, width as nat)));
        if !self.is_paused() {
            let kind = self.next_figure();
            let figure = Figure::of_kind(kind);
            let height = figure.size().height;
            let ghost pictured = Seq::new(
                kind.spec_size().height as nat,
                |row: int| centered(preview_row(kind, row), width as nat),
            );
            let mut row: usize = 0;
            while row < height
                invariant
                    figure.wf(),
                    figure.spec_size() == kind.spec_size(),
                    figure.occupancy() == kind.spec_occupancy(),
                    height == kind.spec_size().height,
                    row <= height,
                    pictured == Seq::new(
                        kind.spec_size().height as nat,
                        |row: int| centered(preview_row(kind, row), width as nat),
                    ),
                    texts(lines@) == head.push(repeated(" "@, width as nat)) + pictured.take(
                        row as int,
                    ),
                decreases height - row,
            {
                let picture = preview_row_string(&figure, Ghost(kind), row);
                let mut line = String::new();
                append_centered(&mut line, picture.as_str(), width);
                assert(line@ =~= pictured[row as int]);
                let ghost before = texts(lines@);
                lines.push(line);
                assert(texts(lines@) =~= before.push(pictured[row as int]));
                row += 1;
                assert(texts(lines@) =~= head.push(repeated(" "@, width as nat)) + pictured.take(
                    row as int,
                ));
            }
            assert(pictured.take(row as int) =~= pictured);
        } else {
            assert(texts(lines@) =~= stats_block(self@, seconds as nat));
        }
        lines
    }

    /// The rows to show at `now`: the status block with level, time played and points at the
    /// left, and the playfield with the locked cells and the falling piece at the right.
    pub fn update_gui(&self, now: u64) -> (rows: Vec<String>)
        requires
            self.wf(),
        ensures
            texts(rows@) == frame(self@, (self@.stopwatch.spec_elapsed(now) / 1_000_000) as nat),
    {
        let seconds = self.elapsed(now) / 1_000_000;
        let statistics_part = self.stats_block_strings(seconds);
        let board_part = self.field_block_strings();
        join_side_by_side(&statistics_part, &board_part)
    }
}

} // verus!
