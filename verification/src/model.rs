//! The mathematical model of a snake: what a snake is, and what each of its
//! operations does, over unbounded integers and sequences.

use crate::direction::Direction;
use vstd::prelude::*;

verus! {

/// A grid cell, as its coordinates `(x, y)`.
pub type Cell = (int, int);

/// The cell that a pair of machine coordinates stands for.
pub open spec fn as_cell(p: (i32, i32)) -> Cell {
    (p.0 as int, p.1 as int)
}

/// Whether both coordinates of `cell` can be held in an `i32`.
pub open spec fn fits_i32(cell: Cell) -> bool {
    &&& i32::MIN <= cell.0 <= i32::MAX
    &&& i32::MIN <= cell.1 <= i32::MAX
}

/// The cell one unit away from `cell` in direction `d`.
pub open spec fn step(cell: Cell, d: Direction) -> Cell {
    (cell.0 + d.dx(), cell.1 + d.dy())
}

/// A snake as a value: its heading, its cells from head to tail, and the
/// cell that the latest move took off its tail, if it has moved at all.
pub struct SnakeView {
    pub direction: Direction,
    pub body: Seq<Cell>,
    pub last_removed: Option<Cell>,
}

impl SnakeView {
    /// A snake is well formed when it has at least one cell, so that it
    /// has a head.
    pub open spec fn wf(self) -> bool {
        self.body.len() > 0
    }

    /// The snake a game starts with: three cells in a row ending at
    /// `(x, y)`, the head to the right, heading right, nothing removed yet.
    pub open spec fn initial(x: int, y: int) -> SnakeView {
        SnakeView {
            direction: Direction::Right,
            body: seq![(x + 2, y), (x + 1, y), (x, y)],
            last_removed: None,
        }
    }

    /// The front cell.
    pub open spec fn head(self) -> Cell {
        self.body.first()
    }

    /// The heading of the next move: `turn` if one is given, else the
    /// current heading.
    pub open spec fn heading_after(self, turn: Option<Direction>) -> Direction {
        match turn {
            Some(d) => d,
            None => self.direction,
        }
    }

    /// The cell the head would enter on a move with `turn`.
    pub open spec fn next_head(self, turn: Option<Direction>) -> Cell {
        step(self.head(), self.heading_after(turn))
    }

    /// Whether the coordinates of the cell the head would enter fit in an
    /// `i32`.
    pub open spec fn can_advance(self, turn: Option<Direction>) -> bool {
        fits_i32(self.next_head(turn))
    }

    /// The snake after one move: the new head in front of every cell but
    /// the old tail, which is remembered.
    pub open spec fn advance(self, turn: Option<Direction>) -> SnakeView {
        SnakeView {
            direction: self.heading_after(turn),
            body: seq![self.next_head(turn)] + self.body.drop_last(),
            last_removed: Some(self.body.last()),
        }
    }

    /// The snake after `n` moves that keep the heading.
    pub open spec fn advance_by(self, n: nat) -> SnakeView
        decreases n,
    {
        if n == 0 {
            self
        } else {
            self.advance(None).advance_by((n - 1) as nat)
        }
    }

    /// The snake with the remembered cell put back behind its tail.
    pub open spec fn restore(self) -> SnakeView
        recommends
            self.last_removed is Some,
    {
        SnakeView { body: self.body.push(self.last_removed.unwrap()), ..self }
    }

    /// Whether `cell` is among the cells of the body, its last position
    /// left out.
    pub open spec fn overlaps(self, cell: Cell) -> bool {
        self.body.drop_last().contains(cell)
    }
}

} // verus!
