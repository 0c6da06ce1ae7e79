//! The player-controlled body: an ordered sequence of occupied cells
//! (head first), a bounded queue of pending directions, and the last
//! accepted direction.

use vstd::prelude::*;
use vstd::set_lib::{set_int_range, lemma_int_range, lemma_len_subset};
use crate::geom::{Pos, Direction, in_board, stepped, step_from, contains_pos, BOARD_WIDTH,
    BOARD_HEIGHT};

verus! {

/// Most queued directions held at once. Input that arrives while the queue
/// is full is dropped, so the backlog stays bounded even when keys arrive
/// faster than the tick rate.
pub const QUEUE_DEPTH: usize = 2;

/// The self-extending body.
pub struct Body {
    /// Occupied cells, head first.
    pub cells: Vec<Pos>,
    /// Accepted directional inputs awaiting consumption, oldest first.
    pub pending: Vec<Direction>,
    /// Direction of the most recently accepted input; the body keeps moving
    /// in it whenever the queue runs empty.
    pub last_direction: Direction,
}

impl Body {
    /// Well-formedness: the body is never empty, every cell lies on the
    /// board, and the pending queue respects its depth bound.
    pub open spec fn wf(self) -> bool {
        &&& self.cells.len() >= 1
        &&& forall|i: int| 0 <= i < self.cells.len() ==> in_board(#[trigger] self.cells[i])
        &&& self.pending.len() <= QUEUE_DEPTH
    }

    /// The head cell.
    pub open spec fn head_spec(self) -> Pos {
        self.cells[0]
    }

    /// The direction the next tick will move in: the oldest queued input,
    /// or the last accepted direction when the queue is empty.
    pub open spec fn next_direction_spec(self) -> Direction {
        if self.pending.len() == 0 {
            self.last_direction
        } else {
            self.pending[0]
        }
    }

    /// A fresh body with the given cells, an empty queue, and `dir` as the
    /// last accepted direction.
    pub fn new(cells: Vec<Pos>, dir: Direction) -> (b: Body)
        ensures
            b.cells == cells,
            b.pending@ == Seq::<Direction>::empty(),
            b.last_direction == dir,
    {
        Body { cells, pending: Vec::new(), last_direction: dir }
    }

    /// The head cell.
    pub fn head(&self) -> (p: Pos)
        requires
            self.cells.len() >= 1,
        ensures
            p == self.head_spec(),
    {
        self.cells[0]
    }

    /// Whether the body occupies cell `p`.
    pub fn occupies(&self, p: Pos) -> (r: bool)
        ensures
            r == self.cells@.contains(p),
    {
        contains_pos(&self.cells, p)
    }

    /// The direction the next tick will move in, without consuming it.
    pub fn next_direction(&self) -> (d: Direction)
        ensures
            d == self.next_direction_spec(),
    {
        if self.pending.len() == 0 {
            self.last_direction
        } else {
            self.pending[0]
        }
    }

    /// How `queue_direction` relates the body before (`pre`) and after
    /// (`post`) accepting input `d`: a reversal or a full queue leaves the
    /// body untouched; otherwise `d` is appended and becomes the last
    /// accepted direction.
    pub open spec fn queued_spec(pre: Body, post: Body, d: Direction) -> bool {
        if d == pre.last_direction.rev_spec() || pre.pending.len() >= QUEUE_DEPTH {
            post == pre
        } else {
            &&& post.pending@ == pre.pending@.push(d)
            &&& post.last_direction == d
            &&& post.cells == pre.cells
        }
    }

    /// Accepts a directional input. The input is silently dropped when it is
    /// the exact reverse of the last accepted direction (a reversal would
    /// collide with the neck at once) or when the queue is full; otherwise it
    /// is appended and becomes the last accepted direction.
    /// In particular, the exact reverse of the last accepted direction
    /// never changes the pending queue or the last accepted direction.
    pub fn queue_direction(&mut self, d: Direction)
        ensures
            Body::queued_spec(*old(self), *final(self), d),
            d == old(self).last_direction.rev_spec() ==> *final(self) == *old(self),
    {
        if d == self.last_direction.reverse() || self.pending.len() >= QUEUE_DEPTH {
            return ;
        }
        self.pending.push(d);
        self.last_direction = d;
    }

    /// Commits one move: consumes the next direction, pushes the wrapped new
    /// head to the front, and drops the tail unless `grow` holds. Returns
    /// the new head.
    pub fn step(&mut self, grow: bool) -> (h: Pos)
        requires
            old(self).wf(),
        ensures
            final(self).wf(),
            h == stepped(old(self).head_spec(), old(self).next_direction_spec()),
            final(self).cells@ == (if grow {
                seq![h] + old(self).cells@
            } else {
                seq![h] + old(self).cells@.drop_last()
            }),
            final(self).pending@ == (if old(self).pending.len() == 0 {
                old(self).pending@
            } else {
                old(self).pending@.skip(1)
            }),
            final(self).last_direction == old(self).last_direction,
    {
        let d: Direction = if self.pending.len() == 0 {
            self.last_direction
        } else {
            self.pending.remove(0)
        };
        let h = step_from(self.cells[0], d);
        self.cells.insert(0, h);
        if !grow {
            self.cells.pop();
        }
        proof {
            assert(self.pending@ =~= (if old(self).pending.len() == 0 {
                old(self).pending@
            } else {
                old(self).pending@.skip(1)
            }));
            assert(self.cells@ =~= (if grow {
                seq![h] + old(self).cells@
            } else {
                seq![h] + old(self).cells@.drop_last()
            }));
        }
        h
    }
}

/// A sequence of pairwise distinct board cells can hold at most one cell
/// per cell of the board, so its length is bounded by the board area.
pub proof fn lemma_distinct_cells_bound(cells: Seq<Pos>)
    requires
        cells.no_duplicates(),
        forall|i: int| 0 <= i < cells.len() ==> in_board(#[trigger] cells[i]),
    ensures
        cells.len() <= BOARD_WIDTH as int * BOARD_HEIGHT as int,
{
    let area = BOARD_WIDTH as int * BOARD_HEIGHT as int;
    let idxs = Seq::new(cells.len(), |i: int| cells[i].x * BOARD_HEIGHT as int + cells[i].y);
    assert forall|i: int, j: int|
        0 <= i < idxs.len() && 0 <= j < idxs.len() && i != j implies idxs[i] != idxs[j] by {
        assert(cells[i] != cells[j]);
        assert(in_board(cells[i]) && in_board(cells[j]));
    }
    assert(idxs.no_duplicates());
    idxs.unique_seq_to_set();
    assert forall|e: int| idxs.to_set().contains(e) implies set_int_range(0, area).contains(
        e,
    ) by {
        let i = choose|i: int| 0 <= i < idxs.len() && idxs[i] == e;
        assert(in_board(cells[i]));
        assert(0 <= cells[i].x * BOARD_HEIGHT as int + cells[i].y < area);
    }
    lemma_int_range(0, area);
    lemma_len_subset(idxs.to_set(), set_int_range(0, area));
}

} // verus!
