//! Rules engine for a two-player game of noughts and crosses.
//!
//! A [`state::game::Game`] is one match. Three operations change it: a match
//! is opened by its initiator, joined by a second participant, and then
//! played move by move until one side owns a full line or the grid is full.
//! Every operation either commits the whole transition or rejects the call
//! and leaves the match as it was.
//!
//! [`state::board`] defines the grid and the result it stands for,
//! [`state::laws`] proves what holds of every match, [`identity`] is the
//! handle by which participants are told apart, and [`digest`] is the one
//! place where the library relies on code it has not verified: the SHA-256
//! digest that deals the seats.
pub mod digest;
pub mod errors;
pub mod identity;
pub mod state;
