//! The rules of a number-guessing game: the difficulty modes, reading a guess
//! typed by the player, the verdict on it, and the state that a game window
//! keeps between its events.

pub mod entry;
pub mod game;
pub mod mode;
pub mod verdict;

pub use entry::parse_guess;
pub use game::{draw_secret, Game, GameState};
pub use mode::Mode;
pub use verdict::{judge, respond, Message};
