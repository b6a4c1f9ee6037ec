//! A two-player card game about paintings, played at random: the catalogue
//! of cards, how a hand is scored, how a move changes the table, and who
//! wins when the game stops.

pub mod card;
pub mod chance;
pub mod course;
pub mod deck;
pub mod game;
pub mod hand;
pub mod player;
pub mod score;
pub mod table;

pub use card::{Artist, Card};
pub use game::GameState;
pub use hand::Hand;
pub use player::Player;
pub use score::Score;
pub use table::Roll;
