//! Verified decision engine of a planet of `common_game`.
//!
//! A planet owns a bank of energy cells and at most one rocket. Sunrays
//! charge the cells, asteroids are deflected by the rocket, and explorers ask
//! for resources that cost one charged cell each. The engine decides, for
//! each message, what happens to the bank and what is answered.
//!
//! - [`bank`] is the mathematical model of the cells and the rocket slot.
//! - [`strategy`] is the rocket strategy, and [`policy`] what each strategy
//!   does to a bank.
//! - [`planet`] and [`resource`] give `common_game`'s planet state, generator
//!   and combinator their contracts over that model; these are believed, not
//!   proved.
//! - [`messages`] holds the messages that the engine takes and gives.
//! - [`model`] is the engine: every handler is proved to do to the planet
//!   what the policy says of its bank.
//! - [`laws`] states what follows for every bank and every strategy.

pub mod bank;
pub mod laws;
pub mod messages;
pub mod model;
pub mod planet;
pub mod policy;
pub mod resource;
pub mod strategy;
