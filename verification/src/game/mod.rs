//! Mini-games that cost party points to play and earn points back.

use vstd::prelude::*;

pub mod snake;
pub mod stack;
pub mod treasure_depths;

pub use snake::Snake;
pub use stack::Stack;
pub use treasure_depths::TreasureDepths;

verus! {

/// what the party knows of a mini-game: how it is listed and what a play costs
pub trait GameObject {
    /// unique identifier for state storage
    fn id(&self) -> &'static str;

    /// display name for the UI
    fn name(&self) -> &'static str;

    /// description for the UI
    fn description(&self) -> &'static str;

    /// cost of a single game token
    fn cost(&self) -> u64;

    /// the terminal is faded to this color, as (r, g, b), before the game
    /// takes over rendering, and faded back from it afterwards
    fn clear_color(&self) -> (u8, u8, u8);
}

/// a key press, as the games read it
#[derive(Debug, Clone, Copy, PartialEq, Eq, Structural)]
pub enum Key {
    Up,
    Down,
    Left,
    Right,
    Enter,
    Char(char),
    Other,
}

/// the best score kept for a game: only a better run replaces it
pub open spec fn best_of(best: u64, score: u64) -> u64 {
    if score > best { score } else { best }
}

} // verus!
