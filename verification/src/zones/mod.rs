//! The themed areas of the game and the generation of their rooms.

pub mod generator;
pub mod zone;
