//! Procedural galaxy generation: star classes, stellar masses, spiral-arm
//! placement rules and an ordered map of stars keyed by position.

pub mod star;
mod stream;
pub mod galaxy;
pub mod table;
pub mod generator;
pub mod placement;
