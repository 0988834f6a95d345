//! A deterministic crafting simulator and genetic-algorithm search support
//! for finding action sequences that maximize the quality of a crafted item
//! under progress, durability and crafting-point constraints.

pub mod actions;
pub mod effect_tracker;
pub mod genome;
pub mod level_table;
pub mod mutator;
pub mod simulator;
pub mod xiv_model;
