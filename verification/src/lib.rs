//! Progression and combat rules of a role-playing game: character classes,
//! levelling, the arithmetic of attacks, and the generation of enemies.

pub mod arith;
mod chance;
pub mod character;
pub mod equipment;
pub mod location;
pub mod randomizer;
