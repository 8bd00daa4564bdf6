//! A small bowling game: a menu that starts a round, a lane with ten pins, a
//! ball launcher on a fixed cadence, a sweep that removes whatever fell off the
//! lane, and the rule that sends the game back to the menu once every pin is gone.
//!
//! Lengths are in thousandths of a world unit, densities in thousandths, and
//! durations in nanoseconds, so that every rule here works on integers.
pub mod scene;
pub mod launcher;
pub mod world;
pub mod menu;
pub mod game;
