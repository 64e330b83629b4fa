# lyre

A terminal music player and library manager whose core is verified with
Verus.

- `src/` is the verified library: text and number formatting, lyrics
  parsing, key bindings, the queue and its playing order, playlists (M3U),
  the library's search, sorting and sidebar, the indexer's and syncer's
  planning, colour themes, and the terminal interface's state machine
  (`view.rs`: a key and the current state give the next state and the
  outside work to do) with the text and layout of every panel.
- `app/` is the program around it: command-line parsing, the SQLite
  database, tag reading and writing, the file system, `ffmpeg`, the
  lrclib.net requests, and the crossterm front end that draws what the
  library computes and carries out the work it asks for.
- `tests/` runs the library on concrete values.
