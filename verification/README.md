# selection

Reads the text that the user has selected on the desktop, and replaces it
(Windows only). The library (`src/`) is verified with Verus; `app/` is the
platform side that talks to the desktop and drives the library.

- `src/text.rs`: trimming white space and NULs, decoding a selection's bytes.
- `src/linux.rs`: which session the process runs in, and the order in which
  the Wayland and X11 primary selections are read.
- `src/windows.rs`: the chords sent as keystrokes, the clipboard snapshot,
  the retries at opening the clipboard, waiting for a copy, and the order in
  which UI Automation and the clipboard are used to read or replace the
  selection.
- `app/`: environment variables, `wl-clipboard-rs`, `x11-clipboard`,
  `arboard`, `enigo` and the Win32 API, each used where the library says.
