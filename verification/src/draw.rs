//! Values handed across the render boundary.

use vstd::prelude::*;

use crate::models::Point;

verus! {

/// The snake's cells in head-first order, packaged for a renderer.
pub struct SnakeShape {
    points: Vec<Point>,
}

impl View for SnakeShape {
    type V = Seq<Point>;

    closed spec fn view(&self) -> Seq<Point> {
        self.points@
    }
}

impl SnakeShape {
    pub fn new(list: Vec<Point>) -> (r: Self)
        ensures
            r@ == list@,
    {
        Self { points: list }
    }

    /// The cells to paint, head first.
    pub fn points(&self) -> (r: &Vec<Point>)
        ensures
            r@ == self@,
    {
        &self.points
    }
}

/// How many board cells fit in a terminal of the given size: the
/// border costs two columns and two rows, and each character cell is
/// two board cells tall.
pub fn terminal_size_to_board_size(terminal_size: (u16, u16)) -> (r: (u16, u16))
    requires
        terminal_size.0 >= 2,
        2 <= terminal_size.1,
        (terminal_size.1 - 2) * 2 <= u16::MAX,
    ensures
        r.0 == terminal_size.0 - 2,
        r.1 == (terminal_size.1 - 2) * 2,
{
    (terminal_size.0 - 2, (terminal_size.1 - 2) * 2)
}

} // verus!
