use vstd::prelude::*;

verus! {

/// Grid coordinates of a bounding box's top-left corner.
#[derive(Debug, Clone, Copy, PartialEq, Eq, Structural)]
pub struct Position<T> {
    pub x: T,
    pub y: T,
}

/// The extent of a rectangle of cells.
#[derive(Debug, Clone, Copy, PartialEq, Eq, Structural)]
pub struct Size {
    pub height: usize,
    pub width: usize,
}

impl Size {
    /// The number of cells, as a mathematical integer.
    pub open spec fn spec_area(&self) -> int {
        self.width * self.height
    }

    /// The number of cells.
    pub fn area(&self) -> (a: usize)
        requires
            self.spec_area() <= usize::MAX,
        ensures
            a == self.spec_area(),
    {
        proof {
            vstd::arithmetic::mul::lemma_mul_is_commutative(
                self.height as int,
                self.width as int,
            );
        }
        self.height * self.width
    }

    /// The number of cells, or nothing where it does not fit the machine word.
    pub fn checked_area(&self) -> (a: Option<usize>)
        ensures
            a.is_some() <==> self.spec_area() <= usize::MAX,
            a.is_some() ==> a.unwrap() == self.spec_area(),
    {
        proof {
            vstd::arithmetic::mul::lemma_mul_is_commutative(
                self.height as int,
                self.width as int,
            );
        }
        self.height.checked_mul(self.width)
    }
}

/// One of the four orientations of a piece. `South` is the shape as the catalog holds it.
#[derive(Debug, Clone, Copy, PartialEq, Eq, Structural)]
pub enum Direction {
    South,
    East,
    North,
    West,
}

impl Direction {
    /// The next orientation on the clockwise ring South, East, North, West.
    pub open spec fn spec_clockwise(self) -> Direction {
        match self {
            Direction::South => Direction::East,
            Direction::East => Direction::North,
            Direction::North => Direction::West,
            Direction::West => Direction::South,
        }
    }

    /// The next orientation on the ring walked the other way.
    pub open spec fn spec_counter_clockwise(self) -> Direction {
        match self {
            Direction::South => Direction::West,
            Direction::East => Direction::South,
            Direction::North => Direction::East,
            Direction::West => Direction::North,
        }
    }

    /// One step on the ring: clockwise or counter-clockwise.
    pub open spec fn spec_turned(self, clockwise: bool) -> Direction {
        if clockwise {
            self.spec_clockwise()
        } else {
            self.spec_counter_clockwise()
        }
    }

    /// One step on the ring: clockwise or counter-clockwise.
    pub fn turned(self, clockwise: bool) -> (d: Direction)
        ensures
            d == self.spec_turned(clockwise),
    {
        match (self, clockwise) {
            (Direction::South, false) => Direction::West,
            (Direction::South, true) => Direction::East,
            (Direction::East, false) => Direction::South,
            (Direction::East, true) => Direction::North,
            (Direction::North, false) => Direction::East,
            (Direction::North, true) => Direction::West,
            (Direction::West, false) => Direction::North,
            (Direction::West, true) => Direction::South,
        }
    }

    /// Whether the orientation lays the shape on its side, so that width and height change places.
    pub open spec fn swaps_axes(self) -> bool {
        self == Direction::East || self == Direction::West
    }
}

/// Four steps the same way round the ring lead back to the start, and a step one way undoes a
/// step the other way.
pub proof fn ring_closes(d: Direction, clockwise: bool)
    ensures
        d.spec_turned(clockwise).spec_turned(clockwise).spec_turned(clockwise).spec_turned(
            clockwise,
        ) == d,
        d.spec_turned(clockwise).spec_turned(!clockwise) == d,
{
}

} // verus!
