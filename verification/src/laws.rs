//! What holds of every snake, proved over the model.

use crate::direction::Direction;
use crate::model::{step, Cell, SnakeView};
use vstd::prelude::*;

verus! {

/// Reversing a heading twice gives the heading back, and a heading is never
/// its own reverse.
pub proof fn lemma_reversed_twice(d: Direction)
    ensures
        d.reversed().reversed() == d,
        d.reversed() != d,
{
}

/// A step in the reverse of a heading undoes a step in that heading.
pub proof fn lemma_reversed_steps_back(cell: Cell, d: Direction)
    ensures
        step(step(cell, d), d.reversed()) == cell,
{
}

/// A new snake is well formed, has three cells, its head two cells to the
/// right of `(x, y)`, and heads right.
pub proof fn lemma_initial_head(x: int, y: int)
    ensures
        SnakeView::initial(x, y).wf(),
        SnakeView::initial(x, y).body.len() == 3,
        SnakeView::initial(x, y).head() == (x + 2, y),
        SnakeView::initial(x, y).direction == Direction::Right,
{
}

/// A move keeps the snake well formed and as long as it was. Its heading
/// is the turn, or the old heading where no turn is given. The head enters
/// the cell that `next_head` names, one unit from the old head along that
/// heading; every other cell takes the place of the cell in front of it;
/// the old tail is what the move removes.
pub proof fn lemma_advance_shifts_body(v: SnakeView, turn: Option<Direction>)
    requires
        v.wf(),
    ensures
        v.advance(turn).wf(),
        v.advance(turn).body.len() == v.body.len(),
        v.advance(turn).direction == v.heading_after(turn),
        v.advance(turn).head() == v.next_head(turn),
        v.advance(turn).head() == step(v.head(), v.heading_after(turn)),
        forall|i: int| 1 <= i < v.body.len() ==> v.advance(turn).body[i] == v.body[i - 1],
        v.advance(turn).last_removed == Some(v.body.last()),
{
}

/// A turn into the current heading is no turn.
pub proof fn lemma_turn_into_heading(v: SnakeView)
    ensures
        v.next_head(Some(v.direction)) == v.next_head(None),
        v.advance(Some(v.direction)) == v.advance(None),
{
}

/// What `next_head` names depends on the head, the heading and the turn
/// alone: snakes that agree on head and heading agree on it, whatever
/// else they hold.
pub proof fn lemma_next_head_reads_head_and_heading(
    v: SnakeView,
    w: SnakeView,
    turn: Option<Direction>,
)
    requires
        v.head() == w.head(),
        v.direction == w.direction,
    ensures
        v.next_head(turn) == w.next_head(turn),
{
}

/// After any number of moves that keep the heading, the snake is as long
/// as it was, heads the same way, and its head has gone one unit per move
/// along that heading.
pub proof fn lemma_straight_run(v: SnakeView, n: nat)
    requires
        v.wf(),
    ensures
        v.advance_by(n).wf(),
        v.advance_by(n).body.len() == v.body.len(),
        v.advance_by(n).direction == v.direction,
        v.advance_by(n).head() == (
            v.head().0 + n * v.direction.dx(),
            v.head().1 + n * v.direction.dy(),
        ),
    decreases n,
{
    if n > 0 {
        let w = v.advance(None);
        lemma_advance_shifts_body(v, None);
        lemma_straight_run(w, (n - 1) as nat);
        assert(n * v.direction.dx() == (n - 1) * v.direction.dx() + v.direction.dx())
            by (nonlinear_arith);
        assert(n * v.direction.dy() == (n - 1) * v.direction.dy() + v.direction.dy())
            by (nonlinear_arith);
    }
}

/// A move followed by a restore leaves the old body behind the new head:
/// the snake is one cell longer, and the cell put back at its end is the
/// cell that the move removed, the old tail.
pub proof fn lemma_advance_then_restore(v: SnakeView, turn: Option<Direction>)
    requires
        v.wf(),
    ensures
        v.advance(turn).last_removed is Some,
        v.advance(turn).restore().wf(),
        v.advance(turn).restore().body.len() == v.advance(turn).body.len() + 1,
        v.advance(turn).restore().body.len() == v.body.len() + 1,
        v.advance(turn).restore().body.last() == v.advance(turn).last_removed.unwrap(),
        v.advance(turn).restore().body.last() == v.body.last(),
        v.advance(turn).restore().body == seq![v.next_head(turn)] + v.body,
        v.advance(turn).restore().direction == v.advance(turn).direction,
        v.advance(turn).restore().last_removed == v.advance(turn).last_removed,
{
}

/// A restore lengthens the body by the remembered cell and changes
/// nothing else.
pub proof fn lemma_restore_appends(v: SnakeView)
    requires
        v.wf(),
        v.last_removed is Some,
    ensures
        v.restore().wf(),
        v.restore().body.len() == v.body.len() + 1,
        v.restore().body.last() == v.last_removed.unwrap(),
        v.restore().body.drop_last() == v.body,
        v.restore().head() == v.head(),
        v.restore().direction == v.direction,
        v.restore().last_removed == v.last_removed,
{
}

/// A cell at any position of the body but the last overlaps the snake.
pub proof fn lemma_overlaps_body_cell(v: SnakeView, i: int)
    requires
        0 <= i < v.body.len() - 1,
    ensures
        v.overlaps(v.body[i]),
{
    assert(v.body.drop_last()[i] == v.body[i]);
}

/// The cell at the last position does not overlap the snake, unless the
/// body holds the same cell at an earlier position as well.
pub proof fn lemma_tail_cell_does_not_overlap(v: SnakeView)
    requires
        v.wf(),
        forall|i: int| 0 <= i < v.body.len() - 1 ==> v.body[i] != v.body.last(),
    ensures
        !v.overlaps(v.body.last()),
{
}

} // verus!
