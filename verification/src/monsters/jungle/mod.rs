//! The species of the jungle.

pub mod goblin;
pub mod ogre;
pub mod slime;
