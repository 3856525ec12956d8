use vstd::prelude::*;
use crate::arena::Arena;
use crate::collectible::Collectible;
use crate::position::{Direction, Position};
use crate::snake::{step, turned, Snake};

verus! {

/// Why a game ended.
#[derive(Clone, Copy, Debug, PartialEq, Eq, Structural)]
pub enum Ending {
    /// The head hit the wall or the body.
    Collision,
    /// The player asked to stop.
    Quit,
}

/// Whether ticks are still being played.
#[derive(Clone, Copy, Debug, PartialEq, Eq, Structural)]
pub enum Status {
    Running,
    Over(Ending),
}

/// What one poll of the input gave.
#[derive(Clone, Copy, Debug, PartialEq, Eq, Structural)]
pub enum Signal {
    /// A direction key.
    Turn(Direction),
    /// The quit key.
    Quit,
    /// Nothing arrived before the poll timed out: one tick passes.
    Idle,
}

/// What to show in a cell.
#[derive(Clone, Copy, Debug, PartialEq, Eq, Structural)]
pub enum Glyph {
    Blank,
    Wall,
    Collectible,
    Head,
    Body,
}

/// One cell to redraw.
#[derive(Clone, Copy, Debug, PartialEq, Eq, Structural)]
pub struct Cell {
    pub position: Position,
    pub glyph: Glyph,
}

/// Each segment of `body`, drawn as body.
pub open spec fn body_cells(body: Seq<Position>) -> Seq<Cell> {
    body.map_values(|p: Position| Cell { position: p, glyph: Glyph::Body })
}

/// The redraw after a tick, in order: clear the vacated cell, then draw the
/// collectible, the head and every body segment.
pub open spec fn frame(vacated: Position, item: Position, head: Position, body: Seq<Position>) -> Seq<
    Cell,
> {
    seq![
        Cell { position: vacated, glyph: Glyph::Blank },
        Cell { position: item, glyph: Glyph::Collectible },
        Cell { position: head, glyph: Glyph::Head },
    ] + body_cells(body)
}

/// A game: the arena, the snake, the collectible on the floor and the status.
#[derive(Debug)]
pub struct Game {
    pub arena: Arena,
    pub snake: Snake,
    pub collectible: Collectible,
    pub status: Status,
}

impl Game {
    /// The arena has a floor, the collectible lies on it, and while the game
    /// runs so does the head.
    pub open spec fn wf(&self) -> bool {
        &&& self.arena.width >= 2
        &&& self.arena.height >= 2
        &&& self.snake.wf()
        &&& self.collectible.fits(self.arena)
        &&& self.status == Status::Running ==> self.arena.interior(self.snake.head)
    }

    /// `after` and `cells` are what `signal` makes of this game, with `fresh`
    /// as the collectible that replaces an eaten one.
    pub open spec fn next(
        self,
        signal: Signal,
        fresh: Collectible,
        after: Game,
        cells: Seq<Cell>,
    ) -> bool {
        &&& after.arena == self.arena
        &&& if self.status != Status::Running {
            &&& after.status == self.status
            &&& after.snake.body@ == self.snake.body@
            &&& after.snake.head == self.snake.head
            &&& after.snake.direction == self.snake.direction
            &&& after.snake.score == self.snake.score
            &&& after.collectible == self.collectible
            &&& cells.len() == 0
        } else {
            match signal {
                Signal::Quit => {
                    &&& after.status == Status::Over(Ending::Quit)
                    &&& after.snake.body@ == self.snake.body@
                    &&& after.snake.head == self.snake.head
                    &&& after.snake.direction == self.snake.direction
                    &&& after.snake.score == self.snake.score
                    &&& after.collectible == self.collectible
                    &&& cells.len() == 0
                },
                Signal::Turn(d) => {
                    &&& after.status == Status::Running
                    &&& after.snake.body@ == self.snake.body@
                    &&& after.snake.head == self.snake.head
                    &&& after.snake.direction == turned(self.snake.direction, d)
                    &&& after.snake.score == self.snake.score
                    &&& after.collectible == self.collectible
                    &&& cells.len() == 0
                },
                Signal::Idle => self.ticked(fresh, after, cells),
            }
        }
    }

    /// One tick of a running game: the snake moves, eats the collectible if
    /// its new head is on it, and the game ends if the head hit a wall or
    /// the body.
    pub open spec fn ticked(self, fresh: Collectible, after: Game, cells: Seq<Cell>) -> bool {
        let s = self.snake;
        let head = step(s.head, s.direction);
        let moved = s.body@.drop_first().push(s.head);
        let eats = head == self.collectible.position;
        &&& after.snake.head == head
        &&& after.snake.direction == s.direction
        &&& after.snake.body@ == (if eats {
            seq![moved[0]] + moved
        } else {
            moved
        })
        &&& after.snake.score == s.score + (if eats {
            self.collectible.value as int
        } else {
            0
        })
        &&& after.collectible == (if eats {
            fresh
        } else {
            self.collectible
        })
        &&& after.status == (if after.snake.body@.contains(head) || !self.arena.interior(head) {
            Status::Over(Ending::Collision)
        } else {
            Status::Running
        })
        &&& cells == frame(s.body@[0], after.collectible.position, head, after.snake.body@)
    }

    /// A running game in `arena` with a snake at `head` heading `direction`
    /// and a collectible at a random cell of the floor.
    pub fn new(arena: Arena, direction: Direction, head: Position) -> (r: Game)
        requires
            arena.width >= 2,
            arena.height >= 2,
            arena.interior(head),
        ensures
            r.wf(),
            r.arena == arena,
            r.snake.body@ == seq![head],
            r.snake.head == head,
            r.snake.direction == direction,
            r.snake.score == 0,
            r.status == Status::Running,
    {
        let collectible = Collectible::spawn(&arena);
        Game { arena, snake: Snake::new(direction, head), collectible, status: Status::Running }
    }

    /// Applies `signal`; a collectible that is eaten is replaced by `fresh`.
    /// Returns the cells to redraw, none unless a tick passed.
    pub fn step_with(&mut self, signal: Signal, fresh: Collectible) -> (cells: Vec<Cell>)
        requires
            old(self).wf(),
            fresh.fits(old(self).arena),
            old(self).snake.score + Collectible::max_value() <= u32::MAX,
        ensures
            final(self).wf(),
            old(self).next(signal, fresh, *final(self), cells@),
    {
        if self.status != Status::Running {
            return Vec::new();
        }
        match signal {
            Signal::Quit => {
                self.status = Status::Over(Ending::Quit);
                Vec::new()
            },
            Signal::Turn(d) => {
                self.snake.set_direction(d);
                Vec::new()
            },
            Signal::Idle => self.tick(fresh),
        }
    }

    fn tick(&mut self, fresh: Collectible) -> (cells: Vec<Cell>)
        requires
            old(self).wf(),
            old(self).status == Status::Running,
            fresh.fits(old(self).arena),
            old(self).snake.score + Collectible::max_value() <= u32::MAX,
        ensures
            final(self).wf(),
            old(self).ticked(fresh, *final(self), cells@),
            final(self).arena == old(self).arena,
    {
        let vacated = self.snake.advance();
        let eaten = self.snake.try_eat(&self.collectible);
        if eaten.is_some() {
            self.collectible = fresh;
        }
        let mut cells: Vec<Cell> = Vec::new();
        cells.push(Cell { position: vacated, glyph: Glyph::Blank });
        cells.push(Cell { position: self.collectible.position, glyph: Glyph::Collectible });
        cells.push(Cell { position: self.snake.head, glyph: Glyph::Head });
        let mut i: usize = 0;
        while i < self.snake.body.len()
            invariant
                0 <= i <= self.snake.body@.len(),
                cells@ == seq![
                    Cell { position: vacated, glyph: Glyph::Blank },
                    Cell { position: self.collectible.position, glyph: Glyph::Collectible },
                    Cell { position: self.snake.head, glyph: Glyph::Head },
                ] + body_cells(self.snake.body@.take(i as int)),
            decreases self.snake.body@.len() - i,
        {
            cells.push(Cell { position: self.snake.body[i], glyph: Glyph::Body });
            proof {
                assert(self.snake.body@.take(i + 1) =~= self.snake.body@.take(i as int).push(
                    self.snake.body@[i as int],
                ));
                assert(body_cells(self.snake.body@.take(i + 1)) =~= body_cells(
                    self.snake.body@.take(i as int),
                ).push(Cell { position: self.snake.body@[i as int], glyph: Glyph::Body }));
            }
            i = i + 1;
        }
        proof {
            assert(self.snake.body@.take(self.snake.body@.len() as int) =~= self.snake.body@);
        }
        if self.snake.is_self_collision() || self.arena.is_wall_collision(self.snake.head) {
            self.status = Status::Over(Ending::Collision);
        }
        cells
    }

    /// Applies `signal`, drawing a new collectible on the floor should the
    /// old one be eaten. Returns the cells to redraw.
    pub fn step(&mut self, signal: Signal) -> (cells: Vec<Cell>)
        requires
            old(self).wf(),
            old(self).snake.score + Collectible::max_value() <= u32::MAX,
        ensures
            final(self).wf(),
            exists|fresh: Collectible|
                fresh.fits(old(self).arena) && #[trigger] old(self).next(
                    signal,
                    fresh,
                    *final(self),
                    cells@,
                ),
    {
        let fresh = Collectible::spawn(&self.arena);
        self.step_with(signal, fresh)
    }
}

} // verus!

verus! {

/// A tick whose new head lands on the collectible raises the score by
/// exactly its value and lengthens the body by exactly one segment; any
/// other tick keeps both as they were.
pub proof fn eating_scores_and_grows(before: Game, fresh: Collectible, after: Game, cells: Seq<Cell>)
    requires
        before.wf(),
        before.ticked(fresh, after, cells),
    ensures
        step(before.snake.head, before.snake.direction) == before.collectible.position ==> {
            &&& after.snake.score == before.snake.score + before.collectible.value
            &&& after.snake.body@.len() == before.snake.body@.len() + 1
        },
        step(before.snake.head, before.snake.direction) != before.collectible.position ==> {
            &&& after.snake.score == before.snake.score
            &&& after.snake.body@.len() == before.snake.body@.len()
        },
{
}

} // verus!
