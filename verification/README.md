# rustty

A terminal emulator: a native window showing a shell in a pseudo-terminal,
with ANSI colours (16 standard, 256-colour palette, 24-bit), cursor movement,
erase, scroll regions, insert/delete of lines and characters, and keyboard
input including special keys and Ctrl+A–Z.

- `src/` — the library, verified with Verus:
  - `grid/` — the character grid (`TerminalGrid`), its abstract state
    (`GridState`) and the effect of each parser action on it
    (`mod.rs`: printing, C0 controls, escape sequences; `csi.rs`: control
    sequences; `sgr.rs`: colour selection);
  - `color.rs` — colours and the 256-colour palette;
  - `input.rs` — keys and the bytes they send;
  - `render.rs` — cutting a grid row into runs of equal colours for drawing;
  - `params.rs` — the parameter lists of the `vte` parser;
  - `decoder.rs` — the `vte` parser and the bytes fed to it;
  - `stream.rs` — turning shell output into parser actions, and applying
    them to the grid;
  - `laws.rs` — properties of the terminal proved over the abstract state.
- `app/` — the program: window and drawing (eframe), the pseudo-terminal
  (portable-pty) and the thread that reads it.
- `tests/` — tests of the library.
