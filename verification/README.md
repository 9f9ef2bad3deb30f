# Cohors

A terminal music player: files, internet radio, favorites, Subsonic-compatible music
servers and Audiobookshelf podcasts, with desktop media controls.

The crate is split in two:

- `src/` is the library, written in Verus and verified: the player's state and what each
  key, command and answer does to it (`app`, `control`, `startup`), the file browser's
  listing (`listing`), search, favorites (`favorites`), the configuration edits (`config`),
  radio playlists and station sources (`radio`, `stations`), the music and podcast server
  addresses and records (`navidrome`, `audiobookshelf`), where the configuration files are
  (`locations`), the buffer that lets the decoder seek back into a network stream
  (`stream`), and the texts and sizes the screen shows (`view`). Paths are compared as
  `std::path` compares them, component by component (`paths`). Laws that hold over
  several calls are public proof functions (`law_*`).
- `app/` is the program around it: the terminal and drawing (ratatui, crossterm), audio
  output (rodio), files, network requests (reqwest), the configuration files (serde) and
  the MPRIS server. It carries out what the library decides.

`tests/` exercises the library on concrete values.
