//! The slash commands, one module each: how each is registered and what it decides.

pub mod check;
pub mod deafen;
pub mod leave;
pub mod linus_timer;
pub mod mute;
pub mod play;
pub mod undeafen;
pub mod unmute;
pub mod wonderful_command;
