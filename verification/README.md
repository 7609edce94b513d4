# Spoticord

A Discord bot that plays a user's Spotify account in a voice channel.

- `src/` is the verified library: the decisions of the bot's commands and
  sessions, the session registry, the "now playing" and lyrics messages (their
  text, buttons, paging and redraw schedule), the player process's event loop,
  the audio buffer, track details, tokens and link requests, and the message
  framing between the bot and its player processes. Verus proves each
  function's contract, and laws that relate several functions stand beside
  them as proof functions (for instance that redraws are at least two seconds
  apart, that the lyrics page shown never moves backwards, and that framed
  messages read back line by line in order).
- A few small trusted wrappers are believed rather than proved: reading the
  system clock, appending a character to a string, base64 encoding and
  decoding, and seeding and drawing from rand's generator. Each states in its
  doc comment what it claims. That a message's JSON text reads back as the
  message is serde's part and lives in `app/`; the library proves only the
  framing.
- `app/` runs it: the player process (`main.rs`, with librespot and songbird)
  and, started with the argument `bot`, the Discord bot (`bot/`, with poise,
  diesel and rspotify). It does the input and output and hands plain values to
  the library. Of these crates only poise and songbird are among the
  dependencies (songbird needs the Opus library to build); librespot, rspotify
  and the diesel crates are not, so `app/` does not compile as it stands.
- `tests/` runs the library on concrete values.
