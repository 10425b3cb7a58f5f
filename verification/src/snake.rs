//! The snake body model: an ordered, head-first sequence of cells, a
//! current direction, and the number of segments to retain.

use vstd::prelude::*;
use std::collections::VecDeque;

use crate::models::{Direction, Point};
use crate::rng::rand_below;

verus! {

/// The mathematical content of a [`Snake`].
pub struct SnakeView {
    /// The body cells, head first.
    pub body: Seq<Point>,
    pub direction: Direction,
    /// How many segments the body is trimmed to when it moves.
    pub length: nat,
}

pub struct Snake {
    list: VecDeque<Point>,
    direction: Direction,
    length: usize,
}

/// Where a head at `p` lands after one step in direction `d`,
/// assuming the step stays in the coordinate type's range.
pub open spec fn moved_head(p: Point, d: Direction) -> Point {
    match d {
        Direction::Up => Point { x: p.x, y: (p.y + 1) as i32 },
        Direction::Down => Point { x: p.x, y: (p.y - 1) as i32 },
        Direction::Left => Point { x: (p.x - 1) as i32, y: p.y },
        Direction::Right => Point { x: (p.x + 1) as i32, y: p.y },
    }
}

/// The step from `p` in direction `d` stays in the coordinate
/// type's range.
pub open spec fn can_advance(p: Point, d: Direction) -> bool {
    match d {
        Direction::Up => p.y < i32::MAX,
        Direction::Down => p.y > i32::MIN,
        Direction::Left => p.x > i32::MIN,
        Direction::Right => p.x < i32::MAX,
    }
}

/// The body after one move: the new head is pushed in front, and the
/// tail is trimmed once the body exceeds `length` segments.
pub open spec fn moved_body(body: Seq<Point>, d: Direction, length: nat) -> Seq<Point> {
    let pushed = seq![moved_head(body[0], d)] + body;
    if pushed.len() > length {
        pushed.drop_last()
    } else {
        pushed
    }
}

/// Moving a body that is within its cap keeps it within its cap.
pub proof fn lemma_move_keeps_cap(body: Seq<Point>, d: Direction, length: nat)
    requires
        body.len() > 0,
        body.len() <= length,
    ensures
        moved_body(body, d, length).len() <= length,
        moved_body(body, d, length).len() == if body.len() + 1 <= length {
            (body.len() + 1) as int
        } else {
            length as int
        },
{
}

/// After the cap is raised by one, the next move lengthens the body
/// by exactly one segment.
pub proof fn lemma_grow_then_move(body: Seq<Point>, d: Direction, length: nat)
    requires
        body.len() > 0,
        body.len() <= length,
    ensures
        moved_body(body, d, length + 1).len() == body.len() + 1,
{
}

impl View for Snake {
    type V = SnakeView;

    closed spec fn view(&self) -> SnakeView {
        SnakeView {
            body: self.list@,
            direction: self.direction,
            length: self.length as nat,
        }
    }
}

impl Snake {
    /// The body never outgrows its cap, and the cap never drops
    /// below one segment.
    pub open spec fn wf(self) -> bool {
        1 <= self@.length && self@.body.len() <= self@.length
    }

    /// A fresh snake: empty body, cap of two segments, and a random
    /// starting direction.
    pub fn new() -> (r: Self)
        ensures
            r@.body.len() == 0,
            r@.length == 2,
            r.wf(),
    {
        Self {
            list: VecDeque::new(),
            direction: match rand_below(4) {
                0 => Direction::Up,
                1 => Direction::Down,
                2 => Direction::Left,
                _ => Direction::Right,
            },
            length: 2,
        }
    }

    /// Seeds the head of an otherwise-empty body at the start of a
    /// run.
    pub fn set_head(&mut self, point: Point)
        requires
            old(self)@.body.len() == 0,
        ensures
            final(self)@.body == seq![point],
            final(self)@.direction == old(self)@.direction,
            final(self)@.length == old(self)@.length,
    {
        self.list.push_front(point);
        proof {
            assert(final(self)@.body =~= seq![point]);
        }
    }

    /// One step: the head advances one cell in the current
    /// direction, and the tail is trimmed back to the cap.
    pub fn moving(&mut self)
        requires
            old(self)@.body.len() > 0,
            can_advance(old(self)@.body[0], old(self)@.direction),
        ensures
            final(self)@.body == moved_body(
                old(self)@.body,
                old(self)@.direction,
                old(self)@.length,
            ),
            final(self)@.direction == old(self)@.direction,
            final(self)@.length == old(self)@.length,
    {
        let front = self.list[0];
        let mut new_x = front.x;
        let mut new_y = front.y;
        match self.direction {
            Direction::Up => new_y += 1,
            Direction::Down => new_y -= 1,
            Direction::Left => new_x -= 1,
            Direction::Right => new_x += 1,
        };
        let new_point = Point { x: new_x, y: new_y };

        self.list.push_front(new_point);
        proof {
            assert(self.list@ =~= seq![moved_head(old(self)@.body[0], old(self)@.direction)]
                + old(self)@.body);
        }

        if self.list.len() > self.length {
            self.list.pop_back();
        }
    }

    /// Raises the cap by one; the body itself lengthens on the next
    /// move.
    pub fn grow(&mut self)
        requires
            old(self)@.length < usize::MAX,
        ensures
            final(self)@.length == old(self)@.length + 1,
            final(self)@.body == old(self)@.body,
            final(self)@.direction == old(self)@.direction,
    {
        self.length += 1;
    }

    /// Turns the snake, unless the request points straight back at
    /// the current direction's opposite, which is silently ignored.
    pub fn change_direction(&mut self, direction: Direction)
        ensures
            final(self)@.direction == if direction == old(self)@.direction.opposite_spec() {
                old(self)@.direction
            } else {
                direction
            },
            final(self)@.body == old(self)@.body,
            final(self)@.length == old(self)@.length,
    {
        if direction != self.direction.opposite() {
            self.direction = direction;
        }
    }

    /// A copy of the body, head first, safe to hand to a renderer.
    pub fn get_list(&self) -> (r: Vec<Point>)
        ensures
            r@ == self@.body,
    {
        let mut out: Vec<Point> = Vec::new();
        let n = self.list.len();
        for i in 0..n
            invariant
                n == self.list@.len(),
                out@ == self.list@.subrange(0, i as int),
        {
            out.push(self.list[i]);
            proof {
                assert(out@ =~= self.list@.subrange(0, i + 1));
            }
        }
        proof {
            assert(out@ =~= self@.body);
        }
        out
    }

    /// The head cell.
    pub fn get_head(&self) -> (r: Point)
        requires
            self@.body.len() > 0,
        ensures
            r == self@.body[0],
    {
        self.list[0]
    }

    /// Empties the body and restores the starting cap of two.
    pub fn reset(&mut self)
        ensures
            final(self)@.body.len() == 0,
            final(self)@.length == 2,
            final(self)@.direction == old(self)@.direction,
    {
        self.list.clear();
        self.length = 2;
    }
}

} // verus!
