# campaign

A terminal companion for tabletop role-playing: it keeps a character sheet
(`character.yaml`), the state of play (`status.yaml`) and free-form notes
(`notes.txt`) in a directory per character, and shows them in a terminal UI
where damage, healing, rages and spell casting are recorded as you play.

- `src/` is the verified library:
  - `types.rs`: the sheet's records and the rules that change the status
    (damage, healing, spell slots, rages, death saving throws);
  - `session.rs`: the play session as a state machine from key presses to
    the next state and the widget work to do;
  - `view.rs`: what the sheet shows (remaining rages and slots, modifiers,
    tabs, health colour, numbers and labels);
  - `text.rs`: number parsing, UTF-8 widths of the prompt's text;
  - `error.rs`: the errors a session reports.
- `app/` is the terminal program: command line, files, YAML, drawing and
  the event loop.
- `tests/` exercise the library.

Usage: `campaign character new <name>` creates a character directory;
`campaign character view <dir>` opens it.
