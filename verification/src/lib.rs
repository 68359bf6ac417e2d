//! The card game Belote, and above all its auction: four players in fixed
//! rotation, two teams, a ladder of bids, and the state machine that takes
//! the bids in turn, decides when the auction is settled and reads the
//! contract off it.
//!
//! - [`players`] and [`cards`] hold the seats, the teams and the cards.
//! - [`bids`] holds the bids, the contract and the auction itself.
//! - [`auction`] is the auction as a mathematical object: the contracts of
//!   the executable functions in [`bids`] are stated over it.
//! - [`laws`] proves what holds of every auction.
//! - [`deck`], [`round`] and [`game`] hold the pack that is shuffled and
//!   dealt, and the rounds and the score of a game.

pub mod auction;
pub mod bids;
pub mod cards;
pub mod deck;
pub mod game;
pub mod laws;
pub mod players;
pub mod round;
