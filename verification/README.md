# Glide

A desktop video player whose decisions are verified with [Verus](https://github.com/verus-lang/verus).

The library in `src/` decides; it neither draws nor plays. Its `VideoPlayer` is told what the user
asks for and what the media engine reports, and answers with a list of commands. The program in
`app/` owns the window (GTK), the media engine (GStreamer) and the files, carries the commands out
in order, and answers the ones that ask for something before it takes the next.

| module      | what it holds                                                              |
|-------------|----------------------------------------------------------------------------|
| `text`      | decimal numbers as text, parsing them back, cutting a text at a byte       |
| `clock`     | stream times and the label of the progress bar                             |
| `path`      | file names and extensions of Unix paths                                    |
| `action`    | the named actions, their states and how menus refer to them                |
| `media`     | what is known about the media, as plain values                             |
| `command`   | what the player asks of its surroundings                                   |
| `selection` | the texts by which menu entries name subtitles and tracks                  |
| `menu`      | the entries of the track menus                                             |
| `model`     | the specification of every decision, as sequences of commands              |
| `player`    | the player itself, proved against `model`                                  |
| `update`    | the search for a newer release                                             |
| `laws`      | what holds of the player as a whole                                        |

The program looks for newer releases of itself only when it is compiled with
`--cfg 'feature="self-updater"'`.

GTK, GStreamer and their development files are needed to build `app/`; the library needs neither.
