# cat_show_downloader

A downloader for TV shows and movies of 3cat.cat. Its decision logic is a library verified with
[Verus](https://github.com/verus-lang/verus); the program around it does the I/O.

- `src/` holds the library. `text` and `paths` are operations on characters; `downloader` and
  `metadata` compute what is fetched, stored and kept; `run`, `media_download`, `transfer` and
  `metadata_run` are machines that say what is to be done next and take what came of it; the
  `_laws` modules state what holds of every run of such a machine.
- `tests/` runs the library on concrete values.
- `app/` carries out what the machines ask for: command line, JSON, HTTP, files and progress bars.
  What it needs beyond that (the API client, file names, yt-dlp, ffmpeg, subtitle cleaning) it
  reaches through the trait `Services`.

Paths are texts with `/` between their components.

Three functions from outside are taken at their word: `String::push`, `String::from_utf8_lossy`
and the display of `reqwest::StatusCode`.
