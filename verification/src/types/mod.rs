pub mod configuration;
pub mod events;
pub mod introspection;
