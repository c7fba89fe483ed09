# jellyname

Renames MakeMKV rips into a Jellyfin-style folder layout, and converts MKV files
with ffmpeg using named profiles.

The library (`src/`) is written in Verus and verified:

- `title`, `paths`, `text`: title normalisation, title guessing from a rip's folder,
  Unix path components, file names, extensions and joining.
- `path_order`: the order of paths component by component, and the stable sort
  of the MKV files found for the given patterns.
- `processor`, `format`, `tmdb`, `models`: filtering search results by language,
  destination paths from format templates (through `strfmt`), the records built
  from TMDB answers.
- `ffmpeg`, `profiles`, `convert`, `numfmt`: the ffmpeg command line of a profile,
  progress bookkeeping, human-readable sizes.
- `conv`, `conv_view`, `probe`: the conversion chooser as a state machine over key
  presses, the text of its screens, and the file report.
- `tui`: the renaming screen's state and the text of its panels (file list,
  selection lists, confirmation dialog, log).

`app/` is the program around it: command line, terminal, TMDB requests, files,
ffmpeg/ffprobe processes.
