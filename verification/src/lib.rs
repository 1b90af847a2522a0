//! Command logic of a Discord voice bot: what each slash command decides,
//! the replies it gives, the commands it registers, and when the bot leaves
//! a voice channel it was left alone in.

pub mod text;
pub mod discord;
pub mod voice;
pub mod commands;
pub mod session;
pub mod guild_id;
pub mod presence;
pub mod registry;
pub mod laws;
pub mod command_spec;
pub mod reply_laws;
