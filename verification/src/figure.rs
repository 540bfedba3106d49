use vstd::prelude::*;
use crate::bits::{bit_of_byte, mask_bits, mask_from_byte, read_mask_bit, BitMask};
use crate::board::cell_index_bounds;
use crate::geometry::{ring_closes, Direction, Size};
use crate::random::pick_kind;
use rand::rngs::ThreadRng;

verus! {

/// The seven pieces of the catalog.
#[derive(Debug, Clone, Copy, PartialEq, Eq, Structural)]
pub enum FigureKind {
    I,
    J,
    L,
    T,
    S,
    Z,
    O,
}

impl FigureKind {
    /// The bounding box of the piece as the catalog holds it.
    pub open spec fn spec_size(self) -> Size {
        match self {
            FigureKind::I => (Size { height: 4, width: 1 }),
            FigureKind::J => (Size { height: 3, width: 2 }),
            FigureKind::L => (Size { height: 3, width: 2 }),
            FigureKind::T => (Size { height: 2, width: 3 }),
            FigureKind::S => (Size { height: 2, width: 3 }),
            FigureKind::Z => (Size { height: 2, width: 3 }),
            FigureKind::O => (Size { height: 2, width: 2 }),
        }
    }

    /// The cells of the piece as the catalog holds it, row by row.
    pub open spec fn spec_occupancy(self) -> Seq<bool> {
        match self {
            FigureKind::I => seq![true, true, true, true],
            FigureKind::J => seq![false, true, false, true, true, true],
            FigureKind::L => seq![true, false, true, false, true, true],
            FigureKind::T => seq![true, true, true, false, true, false],
            FigureKind::S => seq![false, true, true, true, true, false],
            FigureKind::Z => seq![true, true, false, false, true, true],
            FigureKind::O => seq![true, true, true, true],
        }
    }

    /// The piece in an orientation, as a predicate on the cells of its rotated view.
    pub open spec fn shape(self, direction: Direction) -> spec_fn(int, int) -> bool {
        rotated_shape(self.spec_size(), self.spec_occupancy(), direction)
    }

    /// The bounding box of the piece in an orientation.
    pub open spec fn rotated_size(self, direction: Direction) -> Size {
        rotated_extent(self.spec_size(), direction)
    }

    /// The catalog: all seven kinds, in a fixed order.
    pub open spec fn spec_all() -> Seq<FigureKind> {
        seq![
            FigureKind::I,
            FigureKind::J,
            FigureKind::L,
            FigureKind::T,
            FigureKind::S,
            FigureKind::Z,
            FigureKind::O,
        ]
    }

    /// The catalog: all seven kinds, in a fixed order.
    pub fn all() -> (kinds: Vec<FigureKind>)
        ensures
            kinds@ == FigureKind::spec_all(),
    {
        let kinds = vec![
            FigureKind::I,
            FigureKind::J,
            FigureKind::L,
            FigureKind::T,
            FigureKind::S,
            FigureKind::Z,
            FigureKind::O,
        ];
        assert(kinds@ =~= FigureKind::spec_all());
        kinds
    }
}

/// The cell that cell `(row, col)` of a rotated view shows, in the rows and columns of the
/// unrotated shape of the given extent. It may lie outside that shape.
pub open spec fn unrotated(size: Size, direction: Direction, row: int, col: int) -> (int, int) {
    match direction {
        Direction::South => (row, col),
        Direction::East => (size.height - 1 - col, row),
        Direction::North => (size.height - 1 - row, size.width - 1 - col),
        Direction::West => (col, size.width - 1 - row),
    }
}

/// Whether a shape of the given extent and occupancy, unrotated, occupies the cell; no cell
/// outside its bounding box is occupied.
pub open spec fn cell_in(size: Size, occupancy: Seq<bool>, row: int, col: int) -> bool {
    &&& 0 <= row < size.height
    &&& 0 <= col < size.width
    &&& occupancy[row * size.width + col]
}

/// Whether a shape of the given extent and occupancy, seen in an orientation, occupies the
/// cell at `row` and `col` of that view.
pub open spec fn rotated_cell_in(
    size: Size,
    occupancy: Seq<bool>,
    direction: Direction,
    row: int,
    col: int,
) -> bool {
    let source = unrotated(size, direction, row, col);
    cell_in(size, occupancy, source.0, source.1)
}

/// A shape of the given extent and occupancy in an orientation, as a predicate on the cells
/// of its rotated view.
pub open spec fn rotated_shape(size: Size, occupancy: Seq<bool>, direction: Direction) -> spec_fn(
    int,
    int,
) -> bool {
    |row: int, col: int| rotated_cell_in(size, occupancy, direction, row, col)
}

/// The bounding box of a shape of the given extent in an orientation.
pub open spec fn rotated_extent(size: Size, direction: Direction) -> Size {
    if direction.swaps_axes() {
        Size { height: size.width, width: size.height }
    } else {
        size
    }
}

/// The byte that holds the cells of a kind, cell `i` in bit `i`.
pub open spec fn catalog_mask(kind: FigureKind) -> u8 {
    match kind {
        FigureKind::I => 0b0000_1111u8,
        FigureKind::J => 0b0011_1010u8,
        FigureKind::L => 0b0011_0101u8,
        FigureKind::T => 0b0001_0111u8,
        FigureKind::S => 0b0001_1110u8,
        FigureKind::Z => 0b0011_0011u8,
        FigureKind::O => 0b0000_1111u8,
    }
}

/// Each kind's byte holds exactly the cells that the catalog gives the kind.
pub proof fn catalog_masks(kind: FigureKind)
    ensures
        kind.spec_size().spec_area() == kind.spec_occupancy().len(),
        kind.spec_size().spec_area() <= 8,
        Seq::new(
            kind.spec_size().spec_area() as nat,
            |i: int| bit_of_byte(catalog_mask(kind), i),
        ) == kind.spec_occupancy(),
{
    let mask = catalog_mask(kind);
    let size = kind.spec_size();
    let cells = Seq::new(size.spec_area() as nat, |i: int| bit_of_byte(mask, i));
    match kind {
        FigureKind::I => {
            assert(size.height == 4 && size.width == 1);
            assert(size.spec_area() == 4) by (nonlinear_arith)
                requires
                    size.spec_area() == size.width * size.height,
                    size.width == 1,
                    size.height == 4,
            ;
            assert(bit_of_byte(15u8, 0) == true);
            assert(bit_of_byte(15u8, 1) == true);
            assert(bit_of_byte(15u8, 2) == true);
            assert(bit_of_byte(15u8, 3) == true);
            assert(cells =~= kind.spec_occupancy());
        },
        FigureKind::J => {
            assert(size.height == 3 && size.width == 2);
            assert(size.spec_area() == 6) by (nonlinear_arith)
                requires
                    size.spec_area() == size.width * size.height,
                    size.width == 2,
                    size.height == 3,
            ;
            assert(bit_of_byte(58u8, 0) == false);
            assert(bit_of_byte(58u8, 1) == true);
            assert(bit_of_byte(58u8, 2) == false);
            assert(bit_of_byte(58u8, 3) == true);
            assert(bit_of_byte(58u8, 4) == true);
            assert(bit_of_byte(58u8, 5) == true);
            assert(cells =~= kind.spec_occupancy());
        },
        FigureKind::L => {
            assert(size.height == 3 && size.width == 2);
            assert(size.spec_area() == 6) by (nonlinear_arith)
                requires
                    size.spec_area() == size.width * size.height,
                    size.width == 2,
                    size.height == 3,
            ;
            assert(bit_of_byte(53u8, 0) == true);
            assert(bit_of_byte(53u8, 1) == false);
            assert(bit_of_byte(53u8, 2) == true);
            assert(bit_of_byte(53u8, 3) == false);
            assert(bit_of_byte(53u8, 4) == true);
            assert(bit_of_byte(53u8, 5) == true);
            assert(cells =~= kind.spec_occupancy());
        },
        FigureKind::T => {
            assert(size.height == 2 && size.width == 3);
            assert(size.spec_area() == 6) by (nonlinear_arith)
                requires
                    size.spec_area() == size.width * size.height,
                    size.width == 3,
                    size.height == 2,
            ;
            assert(bit_of_byte(23u8, 0) == true);
            assert(bit_of_byte(23u8, 1) == true);
            assert(bit_of_byte(23u8, 2) == true);
            assert(bit_of_byte(23u8, 3) == false);
            assert(bit_of_byte(23u8, 4) == true);
            assert(bit_of_byte(23u8, 5) == false);
            assert(cells =~= kind.spec_occupancy());
        },
        FigureKind::S => {
            assert(size.height == 2 && size.width == 3);
            assert(size.spec_area() == 6) by (nonlinear_arith)
                requires
                    size.spec_area() == size.width * size.height,
                    size.width == 3,
                    size.height == 2,
            ;
            assert(bit_of_byte(30u8, 0) == false);
            assert(bit_of_byte(30u8, 1) == true);
            assert(bit_of_byte(30u8, 2) == true);
            assert(bit_of_byte(30u8, 3) == true);
            assert(bit_of_byte(30u8, 4) == true);
            assert(bit_of_byte(30u8, 5) == false);
            assert(cells =~= kind.spec_occupancy());
        },
        FigureKind::Z => {
            assert(size.height == 2 && size.width == 3);
            assert(size.spec_area() == 6) by (nonlinear_arith)
                requires
                    size.spec_area() == size.width * size.height,
                    size.width == 3,
                    size.height == 2,
            ;
            assert(bit_of_byte(51u8, 0) == true);
            assert(bit_of_byte(51u8, 1) == true);
            assert(bit_of_byte(51u8, 2) == false);
            assert(bit_of_byte(51u8, 3) == false);
            assert(bit_of_byte(51u8, 4) == true);
            assert(bit_of_byte(51u8, 5) == true);
            assert(cells =~= kind.spec_occupancy());
        },
        FigureKind::O => {
            assert(size.height == 2 && size.width == 2);
            assert(size.spec_area() == 4) by (nonlinear_arith)
                requires
                    size.spec_area() == size.width * size.height,
                    size.width == 2,
                    size.height == 2,
            ;
            assert(bit_of_byte(15u8, 0) == true);
            assert(bit_of_byte(15u8, 1) == true);
            assert(bit_of_byte(15u8, 2) == true);
            assert(bit_of_byte(15u8, 3) == true);
            assert(cells =~= kind.spec_occupancy());
        },
    }
}

/// A shape covers as many cells in every orientation: the rotated bounding box has the area
/// of the unrotated one.
pub proof fn rotation_keeps_area(size: Size, direction: Direction)
    ensures
        rotated_extent(size, direction).spec_area() == size.spec_area(),
{
    vstd::arithmetic::mul::lemma_mul_is_commutative(size.width as int, size.height as int);
}

/// Each orientation is the one before it on the clockwise ring turned by a quarter: what
/// leads from the unrotated shape to its East view leads from every view to the next.
pub proof fn clockwise_is_quarter_turn(
    size: Size,
    occupancy: Seq<bool>,
    direction: Direction,
    row: int,
    col: int,
)
    ensures
        rotated_cell_in(size, occupancy, direction.spec_clockwise(), row, col) == rotated_cell_in(
            size,
            occupancy,
            direction,
            rotated_extent(size, direction).height - 1 - col,
            row,
        ),
{
}

/// Four turns the same way show the shape as it was: every cell of the view is occupied as
/// before.
pub proof fn four_turns_restore(
    size: Size,
    occupancy: Seq<bool>,
    direction: Direction,
    clockwise: bool,
    row: int,
    col: int,
)
    ensures
        rotated_extent(
            size,
            direction.spec_turned(clockwise).spec_turned(clockwise).spec_turned(
                clockwise,
            ).spec_turned(clockwise),
        ) == rotated_extent(size, direction),
        rotated_cell_in(
            size,
            occupancy,
            direction.spec_turned(clockwise).spec_turned(clockwise).spec_turned(
                clockwise,
            ).spec_turned(clockwise),
            row,
            col,
        ) == rotated_cell_in(size, occupancy, direction, row, col),
{
    ring_closes(direction, clockwise);
}

/// A view holds no cell outside its bounding box.
pub proof fn view_stays_in_box(
    size: Size,
    occupancy: Seq<bool>,
    direction: Direction,
    row: int,
    col: int,
)
    requires
        rotated_cell_in(size, occupancy, direction, row, col),
    ensures
        0 <= row < rotated_extent(size, direction).height,
        0 <= col < rotated_extent(size, direction).width,
{
}

/// A piece in its unrotated form: a bounding box and one occupancy bit for each of its cells.
pub struct Figure {
    size: Size,
    cells: BitMask,
}

impl Figure {
    /// The bounding box.
    pub closed spec fn spec_size(&self) -> Size {
        self.size
    }

    /// The occupancy bits, row by row.
    pub closed spec fn occupancy(&self) -> Seq<bool> {
        mask_bits(self.cells).take(self.size.spec_area())
    }

    /// The mask holds eight bits, and the bounding box needs no more.
    pub closed spec fn inv(&self) -> bool {
        &&& mask_bits(self.cells).len() == 8
        &&& self.size.spec_area() <= 8
    }

    /// The occupancy has one bit for each cell of the bounding box.
    pub open spec fn wf(&self) -> bool {
        &&& self.inv()
        &&& self.occupancy().len() == self.spec_size().spec_area()
    }

    /// Whether the unrotated shape occupies the cell; no cell outside its bounding box is.
    pub open spec fn spec_cell(&self, row: int, col: int) -> bool {
        cell_in(self.spec_size(), self.occupancy(), row, col)
    }

    /// The bounding box in an orientation.
    pub open spec fn spec_rotated_size(&self, direction: Direction) -> Size {
        rotated_extent(self.spec_size(), direction)
    }

    /// Whether the shape, seen in an orientation, occupies the cell.
    pub open spec fn spec_rotated_cell(&self, direction: Direction, row: int, col: int) -> bool {
        rotated_cell_in(self.spec_size(), self.occupancy(), direction, row, col)
    }

    /// The shape in an orientation, as a predicate on cells.
    pub open spec fn shape(&self, direction: Direction) -> spec_fn(int, int) -> bool {
        rotated_shape(self.spec_size(), self.occupancy(), direction)
    }

    /// A figure of the given bounding box whose cell `i`, counted row by row, is bit `i` of
    /// `mask`, the least significant bit first. Fails where the box has more than eight cells.
    pub fn new(size: Size, mask: u8) -> (figure: Option<Figure>)
        ensures
            figure.is_some() <==> size.spec_area() <= 8,
            figure.is_some() ==> {
                &&& figure.unwrap().wf()
                &&& figure.unwrap().spec_size() == size
                &&& figure.unwrap().occupancy() == Seq::new(
                    size.spec_area() as nat,
                    |i: int| bit_of_byte(mask, i),
                )
            },
    {
        match size.checked_area() {
            Some(area) => {
                if area <= 8 {
                    let figure = Figure { size, cells: mask_from_byte(mask) };
                    assert(figure.occupancy() =~= Seq::new(
                        size.spec_area() as nat,
                        |i: int| bit_of_byte(mask, i),
                    ));
                    Some(figure)
                } else {
                    None
                }
            },
            None => None,
        }
    }

    /// The catalog's figure of a kind.
    pub fn of_kind(kind: FigureKind) -> (figure: Figure)
        ensures
            figure.wf(),
            figure.spec_size() == kind.spec_size(),
            figure.occupancy() == kind.spec_occupancy(),
    {
        let (size, mask): (Size, u8) = match kind {
            FigureKind::I => (Size { height: 4, width: 1 }, 0b0000_1111u8),
            FigureKind::J => (Size { height: 3, width: 2 }, 0b0011_1010u8),
            FigureKind::L => (Size { height: 3, width: 2 }, 0b0011_0101u8),
            FigureKind::T => (Size { height: 2, width: 3 }, 0b0001_0111u8),
            FigureKind::S => (Size { height: 2, width: 3 }, 0b0001_1110u8),
            FigureKind::Z => (Size { height: 2, width: 3 }, 0b0011_0011u8),
            FigureKind::O => (Size { height: 2, width: 2 }, 0b0000_1111u8),
        };
        assert(size == kind.spec_size() && mask == catalog_mask(kind));
        proof {
            catalog_masks(kind);
        }
        let made = Figure::new(size, mask);
        made.unwrap()
    }

    /// The bounding box.
    pub fn size(&self) -> (size: Size)
        ensures
            size == self.spec_size(),
    {
        self.size
    }

    /// Whether the unrotated shape occupies the cell.
    pub fn cell(&self, row: usize, col: usize) -> (occupied: bool)
        requires
            self.wf(),
        ensures
            occupied == self.spec_cell(row as int, col as int),
    {
        if row >= self.size.height || col >= self.size.width {
            return false;
        }
        proof {
            cell_index_bounds(
                col as int,
                row as int,
                self.size.width as int,
                self.size.height as int,
            );
        }
        let index = row * self.size.width + col;
        read_mask_bit(&self.cells, index)
    }

    /// The bounding box in an orientation: as stored for South and North, with width and
    /// height exchanged for East and West.
    pub fn rotated_size(&self, direction: Direction) -> (size: Size)
        ensures
            size == self.spec_rotated_size(direction),
    {
        match direction {
            Direction::South | Direction::North => self.size,
            Direction::East | Direction::West => Size {
                height: self.size.width,
                width: self.size.height,
            },
        }
    }

    /// Whether the shape, seen in an orientation, occupies the cell at `row` and `col` of that
    /// view. A cell that the view does not hold is empty.
    pub fn rotated_cell(&self, direction: Direction, row: usize, col: usize) -> (occupied: bool)
        requires
            self.wf(),
        ensures
            occupied == self.spec_rotated_cell(direction, row as int, col as int),
    {
        let height = self.size.height;
        let width = self.size.width;
        match direction {
            Direction::South => self.cell(row, col),
            Direction::East => {
                if col >= height {
                    false
                } else {
                    self.cell(height - 1 - col, row)
                }
            },
            Direction::North => {
                if row >= height || col >= width {
                    false
                } else {
                    self.cell(height - 1 - row, width - 1 - col)
                }
            },
            Direction::West => {
                if row >= width {
                    false
                } else {
                    self.cell(col, width - 1 - row)
                }
            },
        }
    }

    /// Draws one kind of the catalog at random.
    pub fn choose_random(rng: &mut ThreadRng) -> (kind: FigureKind)
        ensures
            FigureKind::spec_all().contains(kind),
    {
        let kinds = FigureKind::all();
        pick_kind(rng, &kinds)
    }
}

} // verus!
