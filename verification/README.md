# strecken_info_bot

A bot that reports railway disruptions published by strecken.info to
Telegram chats and to Mastodon.

- `src/` is the verified library (Verus): the disruption model, the
  messages for each channel, change detection between two reports, the
  users' filters and trigger warnings, the filter dialog and the `/tw`
  command, splitting long answers for Telegram, and the laws that tie these
  together (`src/laws.rs`). Calls into chrono, chrono-tz, regex,
  html_escape and md5 stand behind small trusted wrappers whose contracts
  say what those crates do.
- `app/` is the program around it: the database and its migrations,
  fetching from strecken.info, the Telegram bot, the Mastodon sender and the
  maintenance commands. It converts between the outside crates' types and
  the library's, and keeps what works on floating point (coordinates and
  distances).
- `tests/` runs the library on concrete values.
