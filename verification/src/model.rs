//! MCSMP request and response models, with their JSON forms.

pub mod player;
pub mod gamerule;
pub mod message;
pub mod server;
pub mod settings;
pub mod ban;
