# ttmp

A minimal terminal music player that organizes songs with tags, and a
verified library at its core.

- `src/` is the library, verified with Verus: the command language (reading a
  command line, every command, macros, help pages), the playlists, files and
  tags, the configuration, the arguments of the program, the decisions of the
  event loop (what a key or message means, what a finished song leads to), and
  the text the screen shows. Work outside the library (files, the audio player,
  the media controls, reading fractions) is asked for as an `Effect`; a
  `Runner` runs a command line to its end, one effect at a time.
- `src/laws.rs` states what holds across commands, such as that going to the
  next song and back gives the playlist back, or that two tag filters keep
  the songs that meet both.
- `app/` is the program around it: the terminal, the audio player, the media
  controls, reading and writing the saved data, and the talk between running
  players.
- `tests/` runs the library on concrete values.
