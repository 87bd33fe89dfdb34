use std::ops::Add;
use std::ops::Neg;
use vstd::prelude::*;
use vstd::std_specs::ops::AddSpecImpl;
use vstd::std_specs::ops::NegSpecImpl;

verus! {

/// The address of a cell: its row and its column, both counted from zero.
#[derive(Clone, Copy, Debug, PartialEq, Eq, Structural)]
pub struct Coordinate {
    pub row: usize,
    pub col: usize,
}

/// A step across the board: how far to move down the rows and along the columns.
#[derive(Clone, Copy, Debug, PartialEq, Eq, Structural)]
pub struct Direction {
    pub drow: i32,
    pub dcol: i32,
}

impl Direction {
    /// The step of the same length that points the opposite way.
    pub open spec fn opposite(self) -> Direction {
        Direction { drow: (-self.drow) as i32, dcol: (-self.dcol) as i32 }
    }

    /// Whether the opposite step can be represented.
    pub open spec fn can_negate(self) -> bool {
        self.drow > i32::MIN && self.dcol > i32::MIN
    }
}

impl Neg for Direction {
    type Output = Direction;

    fn neg(self) -> (reversed: Direction)
        ensures
            reversed == self.opposite(),
            reversed.drow == -self.drow,
            reversed.dcol == -self.dcol,
    {
        Direction { drow: -self.drow, dcol: -self.dcol }
    }
}

impl NegSpecImpl for Direction {
    open spec fn obeys_neg_spec() -> bool {
        true
    }

    open spec fn neg_req(self) -> bool {
        self.can_negate()
    }

    open spec fn neg_spec(self) -> Direction {
        self.opposite()
    }
}

impl Coordinate {
    /// The coordinate reached from `self` by one step `dir`, where both of its
    /// components are non-negative and representable; `None` otherwise.
    pub open spec fn shifted(self, dir: Direction) -> Option<Coordinate> {
        let row = self.row + dir.drow;
        let col = self.col + dir.dcol;
        if 0 <= row <= usize::MAX && 0 <= col <= usize::MAX {
            Some(Coordinate { row: row as usize, col: col as usize })
        } else {
            None
        }
    }
}

/// One component moved by a signed distance, unless the result would be
/// negative or too large to represent.
fn step(from: usize, by: i32) -> (to: Option<usize>)
    ensures
        to == if 0 <= from + by <= usize::MAX {
            Some((from + by) as usize)
        } else {
            None
        },
{
    if by >= 0 {
        let ahead: usize = by as usize;
        if ahead <= usize::MAX - from {
            Some(from + ahead)
        } else {
            None
        }
    } else {
        let back: usize = (-(by as i64)) as usize;
        if back <= from {
            Some(from - back)
        } else {
            None
        }
    }
}

impl Add<Direction> for Coordinate {
    type Output = Option<Coordinate>;

    /// Moves one step. The sum is computed without wrap-around: a step that
    /// would leave the non-negative range yields `None`.
    fn add(self, dir: Direction) -> (moved: Option<Coordinate>)
        ensures
            moved == self.shifted(dir),
    {
        match (step(self.row, dir.drow), step(self.col, dir.dcol)) {
            (Some(row), Some(col)) => Some(Coordinate { row, col }),
            _ => None,
        }
    }
}

impl AddSpecImpl<Direction> for Coordinate {
    open spec fn obeys_add_spec() -> bool {
        true
    }

    open spec fn add_req(self, dir: Direction) -> bool {
        true
    }

    open spec fn add_spec(self, dir: Direction) -> Option<Coordinate> {
        self.shifted(dir)
    }
}

} // verus!
