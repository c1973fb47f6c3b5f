# plumeimpactor

The IPA library screen of Plume Impactor as a verified library: the list of downloadable
applications, its search (lowercasing query and texts; for ASCII text this is proved to
ignore letter case, other characters go through Unicode lowercasing, which is named, not
spelled out) and category filter, the screen's state machine
(each event gives a new state and an effect for the host to carry out), what the screen shows,
the bundled icons, the download bookkeeping, and the colour themes.

- `src/` — the library, verified with Verus.
  - `text` — substring search, characters of a string, the lowercase mapping.
  - `library` — library entries and the filter.
  - `screen` — the screen state, its events, effects and transitions.
  - `layout` — what the screen shows for a state.
  - `icons` — bundled icon names and icon decoding.
  - `download` — stored file name and download progress.
  - `theme` — the themes, their names and colours.
- `tests/` — tests of the library.
- `app/` — the iced front end: network and file work, threads, widgets, styles.
