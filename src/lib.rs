//! Entity/component core of a small 2D platformer: component arenas, the
//! entity table, input edge tracking and the per-frame systems.

pub mod components;
pub mod component_store;
pub mod entity_manager;
pub mod game;
pub mod input_manager;
pub mod level;
pub mod systems;
pub mod texture;
