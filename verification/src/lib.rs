//! A virtual-pet rules engine.
//!
//! A [`pet::Pet`] holds bounded needs (hunger, boredom, health) that evolve
//! over discrete ticks and respond to player actions: feeding, training,
//! consuming another pet. Every state change is specified against a
//! mathematical model of the pet and proved to keep its invariants.

pub mod cake;
pub mod pet;
pub mod text;
