use vstd::prelude::*;
use rand::Rng;
use crate::arena::Arena;
use crate::position::Position;

verus! {

/// Relies on rand::thread_rng and rand::Rng::gen_range: a value drawn from
/// `low..high`, the upper end excluded; gen_range panics on an empty range.
#[verifier::external_body]
fn random_in(low: u16, high: u16) -> (r: u16)
    requires
        low < high,
    ensures
        low <= r < high,
{
    rand::thread_rng().gen_range(low..high)
}

/// The item on the floor that the snake eats for `value` points.
#[derive(Clone, Copy, Debug, PartialEq, Eq, Structural)]
pub struct Collectible {
    pub position: Position,
    pub value: u8,
}

impl Collectible {
    /// The largest value a collectible is drawn with.
    pub open spec fn max_value() -> u8 {
        254
    }

    /// Placed on the floor of `arena`, with a value the draw can give.
    pub open spec fn fits(self, arena: Arena) -> bool {
        arena.interior(self.position) && self.value <= Self::max_value()
    }

    pub fn new(position: Position, value: u8) -> (r: Collectible)
        ensures
            r.position == position,
            r.value == value,
    {
        Collectible { position, value }
    }

    /// A collectible at a random cell of the floor, worth a random value in
    /// `0..=254`. It may land under the snake.
    pub fn spawn(arena: &Arena) -> (r: Collectible)
        requires
            arena.width >= 2,
            arena.height >= 2,
        ensures
            r.fits(*arena),
    {
        let x = random_in(1, arena.width);
        let y = random_in(1, arena.height);
        let value = random_in(0, 255) as u8;
        Collectible { position: Position { x, y }, value }
    }

    /// Replaces this collectible by a freshly drawn one.
    pub fn respawn(&mut self, arena: &Arena)
        requires
            arena.width >= 2,
            arena.height >= 2,
        ensures
            final(self).fits(*arena),
    {
        *self = Self::spawn(arena);
    }

    /// A head at `head` eats this collectible.
    pub fn is_eaten_at(&self, head: Position) -> (r: bool)
        ensures
            r == (self.position == head),
    {
        self.position == head
    }
}

} // verus!
