# tomato_ui

The user interfaces of a novel downloader — a plain console, a terminal
interface and a web server — with their rules and state machines verified by
Verus.

## Layout

- `src/` — the verified library.
  - `text` — characters, trimming, case, decimal numbers, splitting and joining.
  - `config`, `cli_config`, `tui_config` — the settings, the checks a saved
    configuration passes, and how the console and the terminal edit them.
  - `config_screen`, `home_screen`, `screens`, `nav` — the terminal screens
    as state machines: an event and the current state give the next state and
    what the caller does.
  - `panels` — what the terminal screens draw: scrollbars, scroll ranges, the
    preview screen's frame and progress gauges, and the text of each pane.
  - `detail`, `notes`, `cover_ascii`, `updates`, `console`, `cli_flow` — what
    the screens and menus show: book details, release notes, covers drawn as
    text, update lists, history lines, download prompts.
  - `auth`, `jobs`, `web`, `library`, `range`, `book_id` — the web server's
    password lock and session tokens, its job store, request checks, the
    download folder listing, chapter ranges and book ids.
  - `clock` — the wall clock.
- `app/` — the unverified front ends: reading and printing lines, crossterm
  and ratatui glue and drawing, decoding cover files, the clipboard, and the
  axum server with its file and zip downloads.
- `tests/` — tests of the library on concrete values.

Calls into `sha2`, `hex`, `uuid`, `regex`, `textwrap` and `image` go through
small trusted wrappers whose contracts name what they return.
