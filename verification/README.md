# soureigate

`gate` is a terminal UI for browsing an inventory of servers by category and
opening SSH sessions to them in embedded terminal tabs, with a split view,
broadcast input, a command palette, a command prompt that asks before
dangerous commands, and a self-updater.

The application's logic is a Verus-verified library under `src/`:

- `app`, `navigation`, `browse`, `tabs`, `palette`, `commands`, `context`:
  the application state and every operation on it, each with a contract;
  operations return the outside work they need as `Effect`s.
- `keys`, `events`: what each key and mouse event does in each mode, and
  carrying it out.
- `filter`, `config`, `text`, `version`, `clipboard`: search, the inventory
  model, strings, version comparison, Base64, the OSC 52 sequence and the
  clipboard programs to try.
- `terminal`, `view`, `cells`: text copied from a terminal screen, what the
  screen shows (titles, columns, marks, pane sizes), and how each cell of an
  embedded terminal is painted.
- `updater`, `install`, `doom`, `pong`: release asset selection, where the
  installer puts the PATH line, and the integer rules (kills included) and
  wire format of the two games.
- `laws`: properties that relate several operations.

`app/` holds the program around it: the event loop, the SSH sessions
(alacritty_terminal), drawing (ratatui), the clipboard programs, the
network and the file system.
