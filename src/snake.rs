use vstd::prelude::*;
use std::collections::VecDeque;
use crate::collectible::Collectible;
use crate::position::{opposite, Direction, Position};

verus! {

/// The direction after asking to turn from `current` to `requested`: a turn
/// back onto the body, or to the direction already taken, is refused.
pub open spec fn turned(current: Direction, requested: Direction) -> Direction {
    if requested == current || requested == opposite(current) {
        current
    } else {
        requested
    }
}

/// A move one cell from `p` in direction `d` stays on the grid.
pub open spec fn can_step(p: Position, d: Direction) -> bool {
    match d {
        Direction::Left => p.x > 0,
        Direction::Right => p.x < u16::MAX,
        Direction::Up => p.y > 0,
        Direction::Down => p.y < u16::MAX,
    }
}

/// The cell one step from `p` in direction `d`.
pub open spec fn step(p: Position, d: Direction) -> Position {
    match d {
        Direction::Left => Position { x: (p.x - 1) as u16, y: p.y },
        Direction::Right => Position { x: (p.x + 1) as u16, y: p.y },
        Direction::Up => Position { x: p.x, y: (p.y - 1) as u16 },
        Direction::Down => Position { x: p.x, y: (p.y + 1) as u16 },
    }
}

/// The snake: its head, and its body from the tail (front) to the neck (back).
#[derive(Debug)]
pub struct Snake {
    pub body: VecDeque<Position>,
    pub direction: Direction,
    pub head: Position,
    pub score: u32,
}

impl Snake {
    /// The body has a tail segment to give up on the next move.
    pub open spec fn wf(&self) -> bool {
        self.body@.len() >= 1
    }

    /// A new snake at `head`, heading `direction`, with no score and a body of
    /// one segment on the head's own cell: its first move vacates that cell.
    pub fn new(direction: Direction, head: Position) -> (r: Snake)
        ensures
            r.wf(),
            r.body@ == seq![head],
            r.direction == direction,
            r.head == head,
            r.score == 0,
    {
        let mut body: VecDeque<Position> = VecDeque::new();
        body.push_back(head);
        Snake { body, direction, head, score: 0 }
    }

    /// Asks to travel in `direction`; a reversal or a repeat leaves the
    /// direction as it was. The last accepted request before a move counts.
    pub fn set_direction(&mut self, direction: Direction)
        ensures
            final(self).direction == turned(old(self).direction, direction),
            final(self).body@ == old(self).body@,
            final(self).head == old(self).head,
            final(self).score == old(self).score,
    {
        if direction == self.direction || direction == self.direction.opposite() {
            return;
        }
        self.direction = direction;
    }

    /// Moves the head one cell in the current direction. The old head becomes
    /// the neck, the tail segment leaves, and the cell it held is returned.
    pub fn advance(&mut self) -> (vacated: Position)
        requires
            old(self).wf(),
            can_step(old(self).head, old(self).direction),
        ensures
            final(self).wf(),
            final(self).head == step(old(self).head, old(self).direction),
            final(self).body@ == old(self).body@.drop_first().push(old(self).head),
            vacated == old(self).body@[0],
            final(self).direction == old(self).direction,
            final(self).score == old(self).score,
    {
        self.body.push_back(self.head);
        match self.direction {
            Direction::Left => self.head.x = self.head.x - 1,
            Direction::Right => self.head.x = self.head.x + 1,
            Direction::Up => self.head.y = self.head.y - 1,
            Direction::Down => self.head.y = self.head.y + 1,
        }
        let tail = self.body.pop_front();
        proof {
            assert(self.body@ =~= old(self).body@.drop_first().push(old(self).head));
        }
        match tail {
            Some(p) => p,
            None => self.head,
        }
    }

    /// Eats `item` if the head stands on it: the score rises by its value and
    /// the tail segment is doubled, so the body is one segment longer at once.
    pub fn try_eat(&mut self, item: &Collectible) -> (r: Option<u8>)
        requires
            old(self).wf(),
            old(self).score + item.value <= u32::MAX,
        ensures
            final(self).wf(),
            final(self).head == old(self).head,
            final(self).direction == old(self).direction,
            old(self).head == item.position ==> {
                &&& r == Some(item.value)
                &&& final(self).score == old(self).score + item.value
                &&& final(self).body@ == seq![old(self).body@[0]] + old(self).body@
            },
            old(self).head != item.position ==> {
                &&& r == None::<u8>
                &&& final(self).score == old(self).score
                &&& final(self).body@ == old(self).body@
            },
    {
        if !item.is_eaten_at(self.head) {
            return None;
        }
        self.score = self.score + item.value as u32;
        let tail = self.body[0];
        self.body.push_front(tail);
        Some(item.value)
    }

    /// The head has run into the body.
    pub fn is_self_collision(&self) -> (r: bool)
        ensures
            r == self.body@.contains(self.head),
    {
        let mut i: usize = 0;
        while i < self.body.len()
            invariant
                0 <= i <= self.body@.len(),
                forall|j: int| 0 <= j < i ==> self.body@[j] != self.head,
            decreases self.body@.len() - i,
        {
            if self.body[i] == self.head {
                return true;
            }
            i = i + 1;
        }
        false
    }
}

} // verus!

verus! {

/// Asking twice in a row for the same direction: the second request changes
/// nothing.
pub proof fn turn_twice_is_turn_once(current: Direction, requested: Direction)
    ensures
        turned(turned(current, requested), requested) == turned(current, requested),
{
}

/// A request to reverse the direction of travel is always refused.
pub proof fn reversal_is_refused(current: Direction)
    ensures
        turned(current, opposite(current)) == current,
{
}

/// A head on any segment of the body, whatever its length, is a collision
/// with the snake itself.
pub proof fn head_on_body_collides(snake: Snake, i: int)
    requires
        0 <= i < snake.body@.len(),
        snake.body@[i] == snake.head,
    ensures
        snake.body@.contains(snake.head),
{
}

} // verus!
