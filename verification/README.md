# cc_bot

The logic of the CC discord bot, verified with Verus.

- `src/` — the verified library: command parsing (`clear`), the AI chat
  decisions, conversation assembly and answer splitting (`ai_chat`), the
  withdraw list and voice channel state (`config`, `music`), activities
  (`activity`), prompt files (`prompt`), JSON documents as plain values
  (`json`), the general commands and their
  registries (`general`), yt-dlp arguments (`yt_dlp`), the configuration files required
  at start-up (`utils`), a cell type (`shared`) and text helpers (`text`).
- `app/` — the program around it: serenity and poise handlers and commands,
  songbird playback, HTTP requests to the AI service, configuration files.
- `tests/` — tests of the library on concrete values.
