# Cinematic

The rules of a desktop library of videos: which files are videos and what they
are called, what is kept of their playback, which statements read and change the
catalogue and what their rows mean, how the player process is commanded and how
its messages change what is shown, and how a video is handed to a program
outside.

- `src/` is the library. Every function states what it does, and Verus proves it.
  Calls into other crates stand behind small functions whose doc comments say
  what is believed of them.
- `tests/` runs the library, with SQLite in memory for the catalogue.
- `app/` is the program: windows, processes, sockets, threads and the disk. It
  asks the library for the next step, carries it out, and tells what came of it.

Numbers with a fraction are held in the library by their bits (`Double`), which
it compares exactly; arithmetic on them is done in `app/`.
