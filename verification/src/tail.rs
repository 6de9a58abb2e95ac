//! The body of the snake: the cells the head has left most recently.

use std::collections::VecDeque;
use vstd::prelude::*;
use crate::position::Position;

verus! {

/// What a tail holds: its cells, oldest first, and the number of cells it
/// may grow to.
pub ghost struct TailView {
    pub points: Seq<Position>,
    pub length: nat,
}

impl TailView {
    /// The tail holds no more cells than it may.
    pub open spec fn wf(self) -> bool {
        self.points.len() <= self.length
    }

    /// An empty tail that may grow to `length` cells.
    pub open spec fn empty(length: nat) -> TailView {
        TailView { points: Seq::empty(), length }
    }

    /// The last `count` elements of `cells`, or all of them if there are fewer.
    pub open spec fn newest(cells: Seq<Position>, count: nat) -> Seq<Position> {
        if cells.len() <= count {
            cells
        } else {
            cells.subrange(cells.len() - count, cells.len() as int)
        }
    }

    /// The tail after `point` has joined it: the newest `length` cells of
    /// the old ones followed by `point`.
    pub open spec fn pushed(self, point: Position) -> TailView {
        TailView { points: Self::newest(self.points.push(point), self.length), length: self.length }
    }

    /// The tail after all of `points` have joined it, one after the other.
    pub open spec fn pushed_all(self, points: Seq<Position>) -> TailView
        decreases points.len(),
    {
        if points.len() == 0 {
            self
        } else {
            self.pushed_all(points.drop_last()).pushed(points.last())
        }
    }

    /// The tail with room for one more cell.
    pub open spec fn grown(self) -> TailView {
        TailView { points: self.points, length: self.length + 1 }
    }
}

/// The cells that trail the head, bounded by a length that only grows.
#[derive(Debug, PartialEq, Eq)]
pub struct Tail {
    points: VecDeque<Position>,
    length: usize,
}

impl View for Tail {
    type V = TailView;

    closed spec fn view(&self) -> TailView {
        TailView { points: self.points@, length: self.length as nat }
    }
}

impl Clone for Tail {
    fn clone(&self) -> (copy: Self)
        ensures
            copy@ == self@,
    {
        let mut points: VecDeque<Position> = VecDeque::new();
        let mut i: usize = 0;
        while i < self.points.len()
            invariant
                i <= self.points@.len(),
                points@ == self.points@.subrange(0, i as int),
            decreases self.points@.len() - i,
        {
            points.push_back(self.points[i]);
            i += 1;
            assert(points@ =~= self.points@.subrange(0, i as int));
        }
        assert(points@ =~= self.points@);
        Tail { points, length: self.length }
    }
}

impl Tail {
    /// The tail holds no more cells than its length allows. Every tail that
    /// this module hands out is well formed.
    pub open spec fn wf(&self) -> bool {
        self@.wf() && self@.length <= usize::MAX
    }

    /// An empty tail that may grow to `length` cells.
    pub fn new(length: usize) -> (tail: Self)
        ensures
            tail@ == TailView::empty(length as nat),
            tail.wf(),
    {
        Self { points: VecDeque::new(), length }
    }

    /// Appends `point`. A tail that is full drops its oldest cell first; a
    /// tail of length zero stays empty.
    pub fn push(&mut self, point: Position)
        requires
            old(self).wf(),
        ensures
            final(self)@ == old(self)@.pushed(point),
            final(self).wf(),
    {
        if self.length == 0 {
            assert(self@.points =~= old(self)@.pushed(point).points);
            return ;
        }
        if self.points.len() == self.length {
            self.points.pop_front();
        }
        self.points.push_back(point);
        assert(self@.points =~= old(self)@.pushed(point).points);
    }

    /// Makes room for one more cell.
    pub fn inc_length(&mut self)
        requires
            old(self).wf(),
            old(self)@.length < usize::MAX,
        ensures
            final(self)@ == old(self)@.grown(),
            final(self).wf(),
    {
        self.length += 1;
    }

    /// The number of cells the tail may grow to, which may be more than it
    /// holds right now.
    pub fn len(&self) -> (length: usize)
        ensures
            length == self@.length,
    {
        self.length
    }

    /// The cells of the tail, oldest first.
    pub fn iter(&self) -> (cells: Vec<Position>)
        ensures
            cells@ == self@.points,
    {
        let mut cells: Vec<Position> = Vec::new();
        let mut i: usize = 0;
        while i < self.points.len()
            invariant
                i <= self.points@.len(),
                cells@ == self.points@.subrange(0, i as int),
            decreases self.points@.len() - i,
        {
            cells.push(self.points[i]);
            i += 1;
            assert(cells@ =~= self.points@.subrange(0, i as int));
        }
        assert(cells@ =~= self.points@);
        cells
    }

    /// Whether `point` is one of the cells of the tail.
    pub fn contains(&self, point: Position) -> (found: bool)
        ensures
            found == self@.points.contains(point),
    {
        let mut i: usize = 0;
        while i < self.points.len()
            invariant
                i <= self.points@.len(),
                forall|j: int| 0 <= j < i ==> self.points@[j] != point,
            decreases self.points@.len() - i,
        {
            if self.points[i] == point {
                return true;
            }
            i += 1;
        }
        false
    }
}

/// A tail never holds more cells than its length, however many cells join
/// it, and it holds the newest of all cells it was given, in their order.
pub proof fn lemma_pushes_keep_newest(tail: TailView, points: Seq<Position>)
    requires
        tail.wf(),
    ensures
        tail.pushed_all(points).wf(),
        tail.pushed_all(points).length == tail.length,
        tail.pushed_all(points).points == TailView::newest(tail.points + points, tail.length),
    decreases points.len(),
{
    if points.len() == 0 {
        assert(tail.points + points =~= tail.points);
    } else {
        let before = points.drop_last();
        lemma_pushes_keep_newest(tail, before);
        assert(tail.points + points =~= (tail.points + before).push(points.last()));
    }
}

/// A fresh tail that was given `points` holds the last of them, as many as
/// its length allows and no more than there are.
pub proof fn lemma_fresh_tail_holds_most_recent(length: nat, points: Seq<Position>)
    ensures
        ({
            let tail = TailView::empty(length).pushed_all(points);
            let kept = if points.len() <= length {
                points.len()
            } else {
                length
            };
            &&& tail.points.len() == kept
            &&& tail.points.len() <= tail.length
            &&& tail.points == points.subrange(points.len() - kept, points.len() as int)
        }),
{
    lemma_pushes_keep_newest(TailView::empty(length), points);
    assert(Seq::<Position>::empty() + points =~= points);
}

/// A tail that has been given room keeps every cell it has while it fills
/// up: as long as the cells given to it fit, none is dropped.
pub proof fn lemma_growth_never_evicts(tail: TailView, points: Seq<Position>)
    requires
        tail.wf(),
        tail.points.len() + points.len() <= tail.length + 1,
    ensures
        tail.grown().pushed_all(points).points == tail.points + points,
{
    lemma_pushes_keep_newest(tail.grown(), points);
}

} // verus!
