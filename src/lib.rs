//! A terminal snake game's rules: a walled arena, a snake that moves one cell
//! per tick and grows when it eats, a randomly placed collectible, and the
//! tick scheduler that decides when the game is over.
mod arena;
mod collectible;
mod game;
mod position;
mod snake;

pub use arena::Arena;
pub use collectible::Collectible;
pub use game::{Cell, Ending, Game, Glyph, Signal, Status};
pub use position::{Direction, Position};
pub use snake::Snake;
