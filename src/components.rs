pub mod component;
pub mod log_component;
pub mod position_component;
pub mod sprite_component;

pub use component::Component;
pub use log_component::LogComponent;
pub use position_component::PositionComponent;
pub use sprite_component::SpriteComponent;
