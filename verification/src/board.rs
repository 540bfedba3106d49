use vstd::prelude::*;
use crate::bits::{grid_bits, read_bit, write_bit, zeroed_bits, BitGrid};
use crate::figure::Figure;
use crate::geometry::{Direction, Position, Size};

verus! {

/// Whether the cell at column `x`, row `y` blocks a piece: every cell off the grid does, and
/// on the grid the occupied ones do.
pub open spec fn occupied_at(rows: Seq<Seq<bool>>, x: int, y: int) -> bool {
    !(0 <= y < rows.len() && 0 <= x < rows[y].len()) || rows[y][x]
}

/// The grid with the cell at column `x`, row `y` set to `value`; unchanged where that cell is
/// off the grid.
pub open spec fn with_cell(rows: Seq<Seq<bool>>, x: int, y: int, value: bool) -> Seq<Seq<bool>> {
    if 0 <= y < rows.len() && 0 <= x < rows[y].len() {
        rows.update(y, rows[y].update(x, value))
    } else {
        rows
    }
}

/// Whether every column of the row is occupied.
pub open spec fn row_full(row: Seq<bool>) -> bool {
    forall|x: int| 0 <= x < row.len() ==> row[x]
}

/// A row of `width` empty cells.
pub open spec fn blank_row(width: nat) -> Seq<bool> {
    Seq::new(width, |x: int| false)
}

/// The rows that are not full, in their order.
pub open spec fn kept_rows(rows: Seq<Seq<bool>>) -> Seq<Seq<bool>> {
    rows.filter(|row: Seq<bool>| !row_full(row))
}

/// The number of full rows.
pub open spec fn full_row_count(rows: Seq<Seq<bool>>) -> int {
    rows.len() - kept_rows(rows).len()
}

/// The grid after all full rows have left at once: the other rows close up towards row 0 in
/// their order, and as many blank rows as left fill the grid at its far end.
pub open spec fn compacted(rows: Seq<Seq<bool>>, width: nat) -> Seq<Seq<bool>> {
    kept_rows(rows) + Seq::new(full_row_count(rows) as nat, |i: int| blank_row(width))
}

/// A grid of `size` with every cell empty.
pub open spec fn blank_rows(size: Size) -> Seq<Seq<bool>> {
    Seq::new(size.height as nat, |y: int| blank_row(size.width as nat))
}

/// Whether a shape put with its top-left corner at `pos` meets no blocking cell: each cell
/// that the shape occupies lies on the grid and is empty there.
pub open spec fn fits(
    rows: Seq<Seq<bool>>,
    shape: spec_fn(int, int) -> bool,
    shape_size: Size,
    pos: Position<u8>,
) -> bool {
    forall|row: int, col: int|
        0 <= row < shape_size.height && 0 <= col < shape_size.width && #[trigger] shape(row, col)
            ==> !occupied_at(rows, pos.x + col, pos.y + row)
}

/// Whether a shape put with its top-left corner at `pos` occupies the grid cell at column
/// `x`, row `y`.
pub open spec fn covered(
    shape: spec_fn(int, int) -> bool,
    shape_size: Size,
    pos: Position<u8>,
    x: int,
    y: int,
) -> bool {
    &&& 0 <= y - pos.y < shape_size.height
    &&& 0 <= x - pos.x < shape_size.width
    &&& shape(y - pos.y, x - pos.x)
}

/// The grid after a shape was put on it at `pos`: the cells that the shape covers are
/// occupied, the others are as before.
pub open spec fn stamped(
    rows: Seq<Seq<bool>>,
    shape: spec_fn(int, int) -> bool,
    shape_size: Size,
    pos: Position<u8>,
) -> Seq<Seq<bool>> {
    Seq::new(
        rows.len(),
        |y: int|
            Seq::new(
                rows[y].len(),
                |x: int| rows[y][x] || covered(shape, shape_size, pos, x, y),
            ),
    )
}

/// What holds of the board cell at column `x`, row `y` once a shape's cells have been put
/// row by row up to, and without, cell `(rows_done, cols_done)` of the shape: a cell under a
/// shape cell that was reached is occupied if the shape's predicate said so and is else as
/// before, and every other cell is as before.
pub open spec fn put_so_far<F: Fn(usize, usize) -> bool>(
    get_cell: F,
    shape_size: Size,
    pos: Position<u8>,
    rows_done: int,
    cols_done: int,
    before: bool,
    after: bool,
    x: int,
    y: int,
) -> bool {
    let row = y - pos.y;
    let col = x - pos.x;
    if 0 <= col < shape_size.width && 0 <= row < shape_size.height && (row < rows_done || (row
        == rows_done && col < cols_done)) {
        ||| (call_ensures(get_cell, (row as usize, col as usize), true) && after)
        ||| (call_ensures(get_cell, (row as usize, col as usize), false) && after == before)
    } else {
        after == before
    }
}

/// The rows kept of the first `n + 1` rows are those kept of the first `n`, followed by row
/// `n` where it is not full.
pub proof fn kept_rows_step(rows: Seq<Seq<bool>>, n: int)
    requires
        0 <= n < rows.len(),
    ensures
        kept_rows(rows.take(n + 1)) == if row_full(rows[n]) {
            kept_rows(rows.take(n))
        } else {
            kept_rows(rows.take(n)).push(rows[n])
        },
{
    reveal(Seq::filter);
    assert(rows.take(n + 1).drop_last() =~= rows.take(n));
}

/// A grid without a full row loses none: clearing counts no row and leaves the grid as it
/// is.
pub proof fn nothing_to_clear(rows: Seq<Seq<bool>>, width: nat)
    requires
        forall|y: int| 0 <= y < rows.len() ==> !row_full(#[trigger] rows[y]),
    ensures
        full_row_count(rows) == 0,
        compacted(rows, width) == rows,
    decreases rows.len(),
{
    reveal(Seq::filter);
    if rows.len() > 0 {
        nothing_to_clear(rows.drop_last(), width);
        assert(kept_rows(rows.drop_last()) == rows.drop_last());
        assert(rows.drop_last().push(rows.last()) =~= rows);
    }
    assert(kept_rows(rows) =~= rows);
    assert(compacted(rows, width) =~= rows);
}

/// An empty grid that has columns has no full row: clearing counts no row and leaves the
/// grid as it is.
pub proof fn empty_board_clears_nothing(size: Size)
    requires
        size.width > 0,
    ensures
        full_row_count(blank_rows(size)) == 0,
        compacted(blank_rows(size), size.width as nat) == blank_rows(size),
{
    let rows = blank_rows(size);
    assert forall|y: int| 0 <= y < rows.len() implies !row_full(#[trigger] rows[y]) by {
        assert(!rows[y][0]);
    }
    nothing_to_clear(rows, size.width as nat);
}

/// On an empty grid every shape fits wherever its bounding box lies within the grid.
pub proof fn fits_inside_empty_board(
    board_size: Size,
    shape: spec_fn(int, int) -> bool,
    shape_size: Size,
    pos: Position<u8>,
)
    requires
        pos.x + shape_size.width <= board_size.width,
        pos.y + shape_size.height <= board_size.height,
    ensures
        fits(blank_rows(board_size), shape, shape_size, pos),
{
}

/// Clearing keeps the grid's height, takes away exactly the full rows, and keeps the other
/// rows in their order: row `i` of those that stay is row `i` of the grid afterwards, and
/// the rows after them are blank.
pub proof fn clearing_keeps_order(rows: Seq<Seq<bool>>, width: nat, y: int)
    requires
        0 <= y < rows.len(),
    ensures
        compacted(rows, width).len() == rows.len(),
        0 <= full_row_count(rows) <= rows.len(),
        y < kept_rows(rows).len() ==> compacted(rows, width)[y] == kept_rows(rows)[y],
        y >= kept_rows(rows).len() ==> compacted(rows, width)[y] == blank_row(width),
{
    rows.lemma_filter_len(|row: Seq<bool>| !row_full(row));
}

/// Cell `(x, y)` of a row-major grid of width `w` and height `h` has an index of its own
/// below `w * h`.
pub proof fn cell_index_bounds(x: int, y: int, w: int, h: int)
    requires
        0 <= x < w,
        0 <= y < h,
    ensures
        0 <= y * w + x < w * h,
        (y * w + x) / w == y,
        (y * w + x) % w == x,
{
    assert(y * w >= 0) by (nonlinear_arith)
        requires
            y >= 0,
            w > 0,
    ;
    assert(y * w + x < w * h) by (nonlinear_arith)
        requires
            0 <= x < w,
            0 <= y < h,
    ;
    vstd::arithmetic::div_mod::lemma_fundamental_div_mod_converse(y * w + x, w, y, x);
}

/// The playfield: a rectangle of cells, each occupied or empty, stored row by row.
pub struct Board {
    size: Size,
    cells: BitGrid,
}

impl View for Board {
    type V = Seq<Seq<bool>>;

    /// The rows from row 0 on, each a sequence of cells from column 0 on.
    closed spec fn view(&self) -> Seq<Seq<bool>> {
        Seq::new(
            self.size.height as nat,
            |y: int|
                Seq::new(
                    self.size.width as nat,
                    |x: int| grid_bits(self.cells)[y * self.size.width + x],
                ),
        )
    }
}

impl Board {
    /// The board's extent.
    pub closed spec fn spec_size(&self) -> Size {
        self.size
    }

    /// The stored bits are as many as the extent has cells.
    pub closed spec fn inv(&self) -> bool {
        &&& self.size.spec_area() <= usize::MAX / 8
        &&& grid_bits(self.cells).len() == self.size.spec_area()
    }

    /// The board is consistent, and its view is a rectangle of its extent.
    pub open spec fn wf(&self) -> bool {
        &&& self.inv()
        &&& self@.len() == self.spec_size().height
        &&& forall|y: int|
            0 <= y < self@.len() ==> (#[trigger] self@[y]).len() == self.spec_size().width
    }

    /// An empty board of the given extent.
    pub fn new(size: Size) -> (board: Board)
        requires
            size.spec_area() <= usize::MAX / 8,
        ensures
            board.wf(),
            board.spec_size() == size,
            board@ == blank_rows(size),
    {
        let board = Board { size, cells: zeroed_bits(size.area()) };
        proof {
            assert forall|y: int, x: int| 0 <= y < size.height && 0 <= x < size.width implies (
            #[trigger] board@[y][x]) == false by {
                cell_index_bounds(x, y, size.width as int, size.height as int);
            }
            assert(board@ =~~= blank_rows(size));
        }
        board
    }

    /// The board's extent.
    pub fn size(&self) -> (size: Size)
        ensures
            size == self.spec_size(),
    {
        self.size
    }

    /// Whether the cell at column `x`, row `y` blocks a piece. Off the board every cell does.
    pub fn get_cell(&self, x: usize, y: usize) -> (occupied: bool)
        requires
            self.wf(),
        ensures
            occupied == occupied_at(self@, x as int, y as int),
            x >= self.spec_size().width || y >= self.spec_size().height ==> occupied,
    {
        if x >= self.size.width || y >= self.size.height {
            return true;
        }
        proof {
            cell_index_bounds(x as int, y as int, self.size.width as int, self.size.height as int);
        }
        let index = y * self.size.width + x;
        read_bit(&self.cells, index)
    }

    /// Writes one cell. Off the board nothing is written.
    pub fn set_cell(&mut self, x: usize, y: usize, value: bool)
        requires
            old(self).wf(),
        ensures
            final(self).wf(),
            final(self).spec_size() == old(self).spec_size(),
            final(self)@ == with_cell(old(self)@, x as int, y as int, value),
    {
        if x < self.size.width && y < self.size.height {
            let ghost w = self.size.width as int;
            let ghost h = self.size.height as int;
            proof {
                cell_index_bounds(x as int, y as int, w, h);
            }
            let index = y * self.size.width + x;
            write_bit(&mut self.cells, index, value);
            proof {
                let goal = with_cell(old(self)@, x as int, y as int, value);
                assert forall|yy: int, xx: int| 0 <= yy < h && 0 <= xx < w implies (
                #[trigger] self@[yy][xx]) == goal[yy][xx] by {
                    cell_index_bounds(xx, yy, w, h);
                }
                assert(self@ =~~= goal);
            }
        }
    }

    /// Whether a shape, handed over as its bounding box and a predicate that tells which of
    /// the box's cells it occupies, can be put with its top-left corner at `pos`. It can where
    /// none of its occupied cells falls off the board or on an occupied board cell.
    pub fn can_place_figure_with_size<F: Fn(usize, usize) -> bool>(
        &self,
        figure_size: Size,
        get_cell: F,
        pos: Position<u8>,
    ) -> (ok: bool)
        requires
            self.wf(),
            forall|row: usize, col: usize|
                row < figure_size.height && col < figure_size.width ==> call_requires(
                    get_cell,
                    (row, col),
                ),
        ensures
            ok ==> forall|row: usize, col: usize|
                row < figure_size.height && col < figure_size.width ==> #[trigger] call_ensures(
                    get_cell,
                    (row, col),
                    false,
                ) || !occupied_at(self@, pos.x + col, pos.y + row),
            !ok ==> exists|row: usize, col: usize|
                row < figure_size.height && col < figure_size.width && #[trigger] call_ensures(
                    get_cell,
                    (row, col),
                    true,
                ) && occupied_at(self@, pos.x + col, pos.y + row),
    {
        let pos_x: usize = pos.x as usize;
        let pos_y: usize = pos.y as usize;
        let mut row: usize = 0;
        while row < figure_size.height
            invariant
                self.wf(),
                pos_x == pos.x,
                pos_y == pos.y,
                row <= figure_size.height,
                forall|r: usize, c: usize|
                    r < figure_size.height && c < figure_size.width ==> call_requires(
                        get_cell,
                        (r, c),
                    ),
                forall|r: usize, c: usize|
                    r < row && c < figure_size.width ==> #[trigger] call_ensures(
                        get_cell,
                        (r, c),
                        false,
                    ) || !occupied_at(self@, pos.x + c, pos.y + r),
            decreases figure_size.height - row,
        {
            let mut col: usize = 0;
            while col < figure_size.width
                invariant
                    self.wf(),
                    pos_x == pos.x,
                    pos_y == pos.y,
                    row < figure_size.height,
                    col <= figure_size.width,
                    forall|r: usize, c: usize|
                        r < figure_size.height && c < figure_size.width ==> call_requires(
                            get_cell,
                            (r, c),
                        ),
                    forall|r: usize, c: usize|
                        r < row && c < figure_size.width ==> #[trigger] call_ensures(
                            get_cell,
                            (r, c),
                            false,
                        ) || !occupied_at(self@, pos.x + c, pos.y + r),
                    forall|c: usize|
                        c < col ==> #[trigger] call_ensures(get_cell, (row, c), false)
                            || !occupied_at(self@, pos.x + c, pos.y + row),
                decreases figure_size.width - col,
            {
                if get_cell(row, col) {
                    let blocked = match (pos_x.checked_add(col), pos_y.checked_add(row)) {
                        (Some(board_x), Some(board_y)) => self.get_cell(board_x, board_y),
                        _ => true,
                    };
                    if blocked {
                        return false;
                    }
                }
                col += 1;
            }
            row += 1;
        }
        true
    }

    /// Whether the figure, unrotated, can be put with its top-left corner at `pos`.
    pub fn can_place_figure(&self, figure: &Figure, pos: Position<u8>) -> (ok: bool)
        requires
            self.wf(),
            figure.wf(),
        ensures
            ok == fits(self@, figure.shape(Direction::South), figure.spec_size(), pos),
    {
        let look = |row: usize, col: usize| -> (occupied: bool)
            ensures
                occupied == figure.spec_cell(row as int, col as int),
            { figure.cell(row, col) };
        let ok = self.can_place_figure_with_size(figure.size(), look, pos);
        proof {
            let shape = figure.shape(Direction::South);
            let size = figure.spec_size();
            if ok {
                assert forall|row: int, col: int|
                    0 <= row < size.height && 0 <= col < size.width && #[trigger] shape(
                        row,
                        col,
                    ) implies !occupied_at(self@, pos.x + col, pos.y + row) by {
                    assert(call_ensures(look, (row as usize, col as usize), false) || !occupied_at(
                        self@,
                        pos.x + col as usize,
                        pos.y + row as usize,
                    ));
                }
            } else {
                let (row, col) = choose|row: usize, col: usize|
                    row < size.height && col < size.width && #[trigger] call_ensures(
                        look,
                        (row, col),
                        true,
                    ) && occupied_at(self@, pos.x + col, pos.y + row);
                assert(shape(row as int, col as int));
            }
        }
        ok
    }

    /// Puts a shape, handed over as for `can_place_figure_with_size`, on the board at `pos`:
    /// each board cell under an occupied cell of the shape becomes occupied, and no other
    /// cell changes. Cells of the shape that fall off the board are passed over.
    pub fn place_figure_with_size<F: Fn(usize, usize) -> bool>(
        &mut self,
        figure_size: Size,
        get_cell: F,
        pos: Position<u8>,
    )
        requires
            old(self).wf(),
            forall|row: usize, col: usize|
                row < figure_size.height && col < figure_size.width ==> call_requires(
                    get_cell,
                    (row, col),
                ),
        ensures
            final(self).wf(),
            final(self).spec_size() == old(self).spec_size(),
            forall|y: int, x: int|
                0 <= y < old(self)@.len() && 0 <= x < old(self)@[y].len() ==> #[trigger] put_so_far(
                    get_cell,
                    figure_size,
                    pos,
                    figure_size.height as int,
                    0,
                    old(self)@[y][x],
                    final(self)@[y][x],
                    x,
                    y,
                ),
    {
        let pos_x: usize = pos.x as usize;
        let pos_y: usize = pos.y as usize;
        let mut row: usize = 0;
        while row < figure_size.height
            invariant
                self.wf(),
                self.spec_size() == old(self).spec_size(),
                pos_x == pos.x,
                pos_y == pos.y,
                row <= figure_size.height,
                forall|r: usize, c: usize|
                    r < figure_size.height && c < figure_size.width ==> call_requires(
                        get_cell,
                        (r, c),
                    ),
                forall|y: int, x: int|
                    0 <= y < old(self)@.len() && 0 <= x < old(self)@[y].len()
                        ==> #[trigger] put_so_far(
                        get_cell,
                        figure_size,
                        pos,
                        row as int,
                        0,
                        old(self)@[y][x],
                        self@[y][x],
                        x,
                        y,
                    ),
            decreases figure_size.height - row,
        {
            let mut col: usize = 0;
            while col < figure_size.width
                invariant
                    self.wf(),
                    self.spec_size() == old(self).spec_size(),
                    pos_x == pos.x,
                    pos_y == pos.y,
                    row < figure_size.height,
                    col <= figure_size.width,
                    forall|r: usize, c: usize|
                        r < figure_size.height && c < figure_size.width ==> call_requires(
                            get_cell,
                            (r, c),
                        ),
                    forall|y: int, x: int|
                        0 <= y < old(self)@.len() && 0 <= x < old(self)@[y].len()
                            ==> #[trigger] put_so_far(
                            get_cell,
                            figure_size,
                            pos,
                            row as int,
                            col as int,
                            old(self)@[y][x],
                            self@[y][x],
                            x,
                            y,
                        ),
                decreases figure_size.width - col,
            {
                let ghost before = self@;
                let occupied = get_cell(row, col);
                if occupied {
                    match (pos_x.checked_add(col), pos_y.checked_add(row)) {
                        (Some(board_x), Some(board_y)) => {
                            self.set_cell(board_x, board_y, true);
                        },
                        _ => {},
                    }
                }
                proof {
                    assert forall|y: int, x: int|
                        0 <= y < old(self)@.len() && 0 <= x < old(
                            self,
                        )@[y].len() implies #[trigger] put_so_far(
                        get_cell,
                        figure_size,
                        pos,
                        row as int,
                        col + 1,
                        old(self)@[y][x],
                        self@[y][x],
                        x,
                        y,
                    ) by {
                        assert(put_so_far(
                            get_cell,
                            figure_size,
                            pos,
                            row as int,
                            col as int,
                            old(self)@[y][x],
                            before[y][x],
                            x,
                            y,
                        ));
                    }
                }
                col += 1;
            }
            proof {
                assert forall|y: int, x: int|
                    0 <= y < old(self)@.len() && 0 <= x < old(
                        self,
                    )@[y].len() implies #[trigger] put_so_far(
                    get_cell,
                    figure_size,
                    pos,
                    row + 1,
                    0,
                    old(self)@[y][x],
                    self@[y][x],
                    x,
                    y,
                ) by {
                    assert(put_so_far(
                        get_cell,
                        figure_size,
                        pos,
                        row as int,
                        col as int,
                        old(self)@[y][x],
                        self@[y][x],
                        x,
                        y,
                    ));
                }
            }
            row += 1;
        }
    }

    /// Puts the figure, unrotated, on the board with its top-left corner at `pos`.
    pub fn place_figure(&mut self, figure: &Figure, pos: Position<u8>)
        requires
            old(self).wf(),
            figure.wf(),
        ensures
            final(self).wf(),
            final(self).spec_size() == old(self).spec_size(),
            final(self)@ == stamped(
                old(self)@,
                figure.shape(Direction::South),
                figure.spec_size(),
                pos,
            ),
    {
        let look = |row: usize, col: usize| -> (occupied: bool)
            ensures
                occupied == figure.spec_cell(row as int, col as int),
            { figure.cell(row, col) };
        self.place_figure_with_size(figure.size(), look, pos);
        proof {
            let goal = stamped(
                old(self)@,
                figure.shape(Direction::South),
                figure.spec_size(),
                pos,
            );
            assert forall|y: int, x: int|
                0 <= y < old(self)@.len() && 0 <= x < old(self)@[y].len() implies (
            #[trigger] self@[y][x]) == goal[y][x] by {
                assert(put_so_far(
                    look,
                    figure.spec_size(),
                    pos,
                    figure.spec_size().height as int,
                    0,
                    old(self)@[y][x],
                    self@[y][x],
                    x,
                    y,
                ));
            }
            assert(self@ =~~= goal);
        }
    }

    /// Whether every column of the row is occupied.
    fn row_is_full(&self, row: usize) -> (full: bool)
        requires
            self.wf(),
            row < self.spec_size().height,
        ensures
            full == row_full(self@[row as int]),
    {
        let mut col: usize = 0;
        while col < self.size.width
            invariant
                self.wf(),
                row < self.spec_size().height,
                col <= self.size.width,
                forall|x: int| 0 <= x < col ==> self@[row as int][x],
            decreases self.size.width - col,
        {
            if !self.get_cell(col, row) {
                return false;
            }
            col += 1;
        }
        true
    }

    /// Copies row `from` over row `to`.
    fn copy_row(&mut self, from: usize, to: usize)
        requires
            old(self).wf(),
            from < old(self).spec_size().height,
            to < old(self).spec_size().height,
            from != to,
        ensures
            final(self).wf(),
            final(self).spec_size() == old(self).spec_size(),
            final(self)@ == old(self)@.update(to as int, old(self)@[from as int]),
    {
        let mut col: usize = 0;
        while col < self.size.width
            invariant
                self.wf(),
                self.spec_size() == old(self).spec_size(),
                from < self.spec_size().height,
                to < self.spec_size().height,
                from != to,
                col <= self.size.width,
                forall|y: int| 0 <= y < self@.len() && y != to ==> self@[y] == old(self)@[y],
                forall|x: int| 0 <= x < col ==> self@[to as int][x] == old(self)@[from as int][x],
            decreases self.size.width - col,
        {
            let value = self.get_cell(col, from);
            self.set_cell(col, to, value);
            col += 1;
        }
        assert(self@ =~~= old(self)@.update(to as int, old(self)@[from as int]));
    }

    /// Empties row `row`.
    fn clear_row(&mut self, row: usize)
        requires
            old(self).wf(),
            row < old(self).spec_size().height,
        ensures
            final(self).wf(),
            final(self).spec_size() == old(self).spec_size(),
            final(self)@ == old(self)@.update(
                row as int,
                blank_row(old(self).spec_size().width as nat),
            ),
    {
        let mut col: usize = 0;
        while col < self.size.width
            invariant
                self.wf(),
                self.spec_size() == old(self).spec_size(),
                row < self.spec_size().height,
                col <= self.size.width,
                forall|y: int| 0 <= y < self@.len() && y != row ==> self@[y] == old(self)@[y],
                forall|x: int| 0 <= x < col ==> !self@[row as int][x],
            decreases self.size.width - col,
        {
            self.set_cell(col, row, false);
            col += 1;
        }
        assert(self@ =~~= old(self)@.update(
            row as int,
            blank_row(old(self).spec_size().width as nat),
        ));
    }

    /// Removes every full row at once and returns how many there were. The rows that stay
    /// close up towards row 0 in their order; the rows left over at the far end are emptied.
    pub fn clear_full_lines(&mut self) -> (count: usize)
        requires
            old(self).wf(),
        ensures
            final(self).wf(),
            final(self).spec_size() == old(self).spec_size(),
            count == full_row_count(old(self)@),
            final(self)@ == compacted(old(self)@, old(self).spec_size().width as nat),
    {
        let height = self.size.height;
        let mut full: Vec<bool> = Vec::new();
        let mut row: usize = 0;
        while row < height
            invariant
                self.wf(),
                *self == *old(self),
                height == self.spec_size().height,
                row <= height,
                full@.len() == row,
                forall|y: int| 0 <= y < row ==> full@[y] == row_full(old(self)@[y]),
            decreases height - row,
        {
            let is_full = self.row_is_full(row);
            full.push(is_full);
            row += 1;
        }
        let mut write_row: usize = 0;
        let mut read_row: usize = 0;
        while read_row < height
            invariant
                self.wf(),
                self.spec_size() == old(self).spec_size(),
                height == self.spec_size().height,
                old(self)@.len() == height,
                write_row <= read_row <= height,
                full@.len() == height,
                forall|y: int| 0 <= y < height ==> full@[y] == row_full(old(self)@[y]),
                self@.take(write_row as int) == kept_rows(old(self)@.take(read_row as int)),
                forall|y: int| read_row <= y < height ==> self@[y] == old(self)@[y],
            decreases height - read_row,
        {
            let ghost before = self@;
            proof {
                kept_rows_step(old(self)@, read_row as int);
            }
            if !full[read_row] {
                if write_row != read_row {
                    self.copy_row(read_row, write_row);
                }
                assert(self@.take(write_row + 1) =~= before.take(write_row as int).push(
                    old(self)@[read_row as int],
                ));
                write_row += 1;
            }
            read_row += 1;
        }
        assert(old(self)@.take(height as int) =~= old(self)@);
        let ghost kept = kept_rows(old(self)@);
        row = write_row;
        while row < height
            invariant
                self.wf(),
                self.spec_size() == old(self).spec_size(),
                height == self.spec_size().height,
                write_row <= row <= height,
                kept.len() == write_row,
                self@.take(write_row as int) == kept,
                forall|y: int|
                    write_row <= y < row ==> self@[y] == blank_row(
                        old(self).spec_size().width as nat,
                    ),
            decreases height - row,
        {
            let ghost before = self@;
            self.clear_row(row);
            assert(self@.take(write_row as int) =~= before.take(write_row as int));
            row += 1;
        }
        proof {
            let goal = compacted(old(self)@, old(self).spec_size().width as nat);
            assert(goal.len() == height);
            assert forall|y: int| 0 <= y < height implies self@[y] == goal[y] by {
                if y < write_row {
                    assert(self@[y] == self@.take(write_row as int)[y]);
                }
            }
            assert(self@ =~= goal);
        }
        height - write_row
    }
}

} // verus!
