//! Actions: what happens to entities, to traffic and to the environment.
pub mod appearance;
pub mod control;
pub mod movement;
pub mod traffic;
pub mod wrappers;
