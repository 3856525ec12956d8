use vstd::prelude::*;
use crate::position::Position;

verus! {

/// The playing field: the cells with `0 < x < width` and `0 < y < height` are
/// floor, the cells on the lines `x == 0`, `x == width`, `y == 0` and
/// `y == height` are its wall.
#[derive(Clone, Copy, Debug, PartialEq, Eq, Structural)]
pub struct Arena {
    pub width: u16,
    pub height: u16,
}

impl Arena {
    /// `p` lies strictly inside the walls.
    pub open spec fn interior(self, p: Position) -> bool {
        0 < p.x < self.width && 0 < p.y < self.height
    }

    /// `p` lies on the wall that surrounds the floor.
    pub open spec fn on_wall(self, p: Position) -> bool {
        &&& p.x <= self.width
        &&& p.y <= self.height
        &&& (p.x == 0 || p.x == self.width || p.y == 0 || p.y == self.height)
    }

    pub fn new(width: u16, height: u16) -> (r: Arena)
        ensures
            r.width == width,
            r.height == height,
    {
        Arena { width, height }
    }

    pub fn contains_interior(&self, p: Position) -> (r: bool)
        ensures
            r == self.interior(p),
    {
        p.x > 0 && p.x < self.width && p.y > 0 && p.y < self.height
    }

    /// A head at `p` has hit the wall (or left the field altogether).
    pub fn is_wall_collision(&self, p: Position) -> (r: bool)
        ensures
            r == !self.interior(p),
    {
        !self.contains_interior(p)
    }

    /// The cells of the wall, each at least once, for drawing the field.
    pub fn wall_cells(&self) -> (r: Vec<Position>)
        ensures
            forall|p: Position| r@.contains(p) <==> self.on_wall(p),
    {
        let w = self.width;
        let h = self.height;
        let mut r: Vec<Position> = Vec::new();
        let mut x: u32 = 0;
        while x <= w as u32
            invariant
                x <= w as u32 + 1,
                w == self.width,
                h == self.height,
                forall|i: int| 0 <= i < r@.len() ==> self.on_wall(#[trigger] r@[i]),
                forall|p: Position|
                    (p.y == 0 || p.y == h) && p.x < x ==> #[trigger] r@.contains(p),
            decreases w as u32 + 1 - x,
        {
            let ghost before = r@;
            r.push(Position { x: x as u16, y: 0 });
            r.push(Position { x: x as u16, y: h });
            proof {
                assert forall|p: Position|
                    (p.y == 0 || p.y == h) && p.x < x + 1 implies #[trigger] r@.contains(p) by {
                    if p.x < x {
                        assert(before.contains(p));
                        let i = choose|i: int| 0 <= i < before.len() && before[i] == p;
                        assert(r@[i] == p);
                    } else if p.y == 0 {
                        assert(r@[r@.len() - 2] == p);
                    } else {
                        assert(r@[r@.len() - 1] == p);
                    }
                }
            }
            x = x + 1;
        }
        let mut y: u32 = 0;
        while y <= h as u32
            invariant
                y <= h as u32 + 1,
                w == self.width,
                h == self.height,
                forall|i: int| 0 <= i < r@.len() ==> self.on_wall(#[trigger] r@[i]),
                forall|p: Position|
                    (p.y == 0 || p.y == h) && p.x <= w ==> #[trigger] r@.contains(p),
                forall|p: Position|
                    (p.x == 0 || p.x == w) && p.y < y ==> #[trigger] r@.contains(p),
            decreases h as u32 + 1 - y,
        {
            let ghost before = r@;
            r.push(Position { x: 0, y: y as u16 });
            r.push(Position { x: w, y: y as u16 });
            proof {
                assert forall|p: Position| r@.len() >= 0 && before.contains(p) implies #[trigger] r@.contains(p) by {
                    let i = choose|i: int| 0 <= i < before.len() && before[i] == p;
                    assert(r@[i] == p);
                }
                assert forall|p: Position|
                    (p.x == 0 || p.x == w) && p.y < y + 1 implies #[trigger] r@.contains(p) by {
                    if p.y < y {
                        assert(before.contains(p));
                    } else if p.x == 0 {
                        assert(r@[r@.len() - 2] == p);
                    } else {
                        assert(r@[r@.len() - 1] == p);
                    }
                }
            }
            y = y + 1;
        }
        proof {
            assert forall|p: Position| r@.contains(p) implies self.on_wall(p) by {
                let i = choose|i: int| 0 <= i < r@.len() && r@[i] == p;
            }
        }
        r
    }
}

/// Every cell on the wall stops the snake, and no cell of the floor does.
pub proof fn wall_collision_exactly_off_floor(a: Arena, p: Position)
    ensures
        a.on_wall(p) ==> !a.interior(p),
        a.interior(p) ==> !a.on_wall(p),
        (p.x == 0 || p.x == a.width || p.y == 0 || p.y == a.height) ==> !a.interior(p),
{
}

} // verus!
