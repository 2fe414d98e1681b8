//! A single-table blackjack round engine: a 52-card shoe that deals without
//! replacement, sequential hand scoring, the dealer's probabilistic policy and
//! the state machine that resolves one round.

pub mod card;
pub mod chance;
pub mod deck;
pub mod event;
pub mod game;
pub mod input;
pub mod participant;
pub mod policy;
pub mod round;
pub mod score;
