# voice_bot

The command logic of a Discord voice bot, verified with Verus.

- `src/commands/` — one module per slash command: its registration with
  Discord (through serenity's builders) and its run as a state machine that
  asks for voice operations and replies.
- `src/voice.rs` — the stages, requests and reports shared by the runs.
- `src/session.rs` — routing of a command name to its command, and one run
  per interaction.
- `src/command_spec.rs` — registrations as plain values, and their
  conversion into serenity's builders.
- `src/registry.rs` — the commands registered in the configured guild.
- `src/guild_id.rs` — reading the configured guild id.
- `src/presence.rs` — when the bot leaves a voice channel it was left alone in.
- `src/discord.rs` — the trusted interface to serenity.
- `src/laws.rs` — properties that span the commands.
- `app/main.rs` — the client itself: it performs what the library asks for
  (gateway events, voice calls, playback) and reports back.
