//! The snake itself: its head, and the cells behind it in a deque.

use crate::direction::Direction;
use crate::model::{as_cell, fits_i32, step, Cell, SnakeView};
use std::collections::VecDeque;
use vstd::prelude::*;

verus! {

#[derive(Debug, Clone, Copy)]
struct Block {
    x: i32,
    y: i32,
}

impl View for Block {
    type V = Cell;

    closed spec fn view(&self) -> Cell {
        (self.x as int, self.y as int)
    }
}

impl Block {
    fn position(self) -> (p: (i32, i32))
        ensures
            as_cell(p) == self@,
    {
        (self.x, self.y)
    }

    fn is_at(self, x: i32, y: i32) -> (same: bool)
        ensures
            same == (self@ == (x as int, y as int)),
    {
        x == self.x && y == self.y
    }

    /// The block one unit away in direction `d`.
    fn neighbour(self, d: Direction) -> (b: Block)
        requires
            fits_i32(step(self@, d)),
        ensures
            b@ == step(self@, d),
    {
        match d {
            Direction::Up => Block { x: self.x, y: self.y - 1 },
            Direction::Down => Block { x: self.x, y: self.y + 1 },
            Direction::Left => Block { x: self.x - 1, y: self.y },
            Direction::Right => Block { x: self.x + 1, y: self.y },
        }
    }
}

/// A snake on the grid. The head is held apart from the cells that follow
/// it, so a snake without a cell cannot be built.
pub struct Snake {
    direction: Direction,
    head: Block,
    /// The cells behind the head, the nearest first and the tail last.
    rest: VecDeque<Block>,
    last_removed: Option<Block>,
}

impl View for Snake {
    type V = SnakeView;

    closed spec fn view(&self) -> SnakeView {
        SnakeView {
            direction: self.direction,
            body: seq![self.head@] + self.rest@.map_values(|b: Block| b@),
            last_removed: match self.last_removed {
                Some(b) => Some(b@),
                None => None,
            },
        }
    }
}

impl Snake {
    /// Every snake is well formed, and the coordinates of all its cells,
    /// the remembered one too, fit in an `i32`.
    pub proof fn lemma_wf(&self)
        ensures
            self@.wf(),
            forall|i: int| 0 <= i < self@.body.len() ==> fits_i32(#[trigger] self@.body[i]),
            self@.last_removed matches Some(cell) ==> fits_i32(cell),
    {
    }

    /// A snake of three cells in a row, its tail at `(x, y)` and its head
    /// two cells to the right, heading right.
    pub fn new(x: i32, y: i32) -> (snake: Snake)
        requires
            x + 2 <= i32::MAX,
        ensures
            snake@ == SnakeView::initial(x as int, y as int),
    {
        let mut rest: VecDeque<Block> = VecDeque::new();
        rest.push_back(Block { x: x + 1, y });
        rest.push_back(Block { x, y });

        let snake = Snake {
            direction: Direction::Right,
            head: Block { x: x + 2, y },
            rest,
            last_removed: None,
        };
        assert(snake@.body =~= SnakeView::initial(x as int, y as int).body);
        snake
    }

    /// The coordinates of the head.
    pub fn head_position(&self) -> (p: (i32, i32))
        ensures
            as_cell(p) == self@.head(),
    {
        self.head.position()
    }

    /// The current heading.
    pub fn head_direction(&self) -> (d: Direction)
        ensures
            d == self@.direction,
    {
        self.direction
    }

    /// Where the head would be after a move with `dir`. The snake itself
    /// stays as it is.
    pub fn next_head(&self, dir: Option<Direction>) -> (p: (i32, i32))
        requires
            self@.can_advance(dir),
        ensures
            as_cell(p) == self@.next_head(dir),
    {
        let moving_dir: Direction = match dir {
            Some(d) => d,
            None => self.direction,
        };
        self.head.neighbour(moving_dir).position()
    }

    /// Moves the snake by one cell. A given `direction` becomes the heading
    /// first, whatever the heading was; the head then enters the next cell
    /// and the tail leaves its cell, which is remembered.
    pub fn move_forward(&mut self, direction: Option<Direction>)
        requires
            old(self)@.can_advance(direction),
        ensures
            final(self)@ == old(self)@.advance(direction),
    {
        match direction {
            Some(d) => {
                self.direction = d;
            },
            None => {},
        }

        let new_head: Block = self.head.neighbour(self.direction);
        self.rest.push_front(self.head);
        self.head = new_head;
        let removed_block: Block = self.rest.pop_back().unwrap();
        self.last_removed = Some(removed_block);

        assert(self@.body =~= old(self)@.advance(direction).body);
    }

    /// Puts the cell that the latest move removed back behind the tail.
    pub fn restore_tail(&mut self)
        requires
            old(self)@.last_removed is Some,
        ensures
            final(self)@ == old(self)@.restore(),
    {
        let block: Block = self.last_removed.unwrap();
        self.rest.push_back(block);

        assert(self@.body =~= old(self)@.restore().body);
    }

    /// Whether `(x, y)` lies on the body, not counting the position of the
    /// tail, which the next move vacates.
    pub fn overlap_tail(&self, x: i32, y: i32) -> (hit: bool)
        ensures
            hit == self@.overlaps((x as int, y as int)),
    {
        let behind: usize = self.rest.len();
        if behind == 0 {
            // The head is the tail as well.
            return false;
        }
        if self.head.is_at(x, y) {
            assert(self@.body.drop_last()[0] == (x as int, y as int));
            return true;
        }
        let mut i: usize = 0;
        while i < behind - 1
            invariant
                0 < behind == self.rest@.len(),
                i <= behind - 1,
                forall|j: int| 0 <= j <= i ==> self@.body[j] != (x as int, y as int),
            decreases behind - i,
        {
            if self.rest[i].is_at(x, y) {
                assert(self@.body.drop_last()[i + 1] == (x as int, y as int));
                return true;
            }
            i += 1;
        }
        false
    }

    /// The cells of the body, from head to tail.
    pub fn cells(&self) -> (out: Vec<(i32, i32)>)
        ensures
            out@.map_values(|p: (i32, i32)| as_cell(p)) == self@.body,
    {
        let mut out: Vec<(i32, i32)> = Vec::new();
        out.push(self.head.position());
        let behind: usize = self.rest.len();
        let mut i: usize = 0;
        while i < behind
            invariant
                i <= behind == self.rest@.len(),
                out@.len() == i + 1,
                forall|j: int| 0 <= j <= i ==> as_cell(out@[j]) == self@.body[j],
            decreases behind - i,
        {
            out.push(self.rest[i].position());
            i += 1;
        }
        out
    }
}

} // verus!
