# flutter_cli

A terminal command centre for Flutter projects. The screen shows six tabs
(development, maintenance, cache management, devices, miscellaneous, exit);
each tab lists commands,
the arrow keys move between tabs and rows, Enter runs the selected command and
`q` quits.

Layout:

- `src/` — the verified library: the screen state and its navigation
  (`state`, `list`, `app`, `keys`), the command table behind Enter (`app`),
  the text shown on screen (`screen`, `text`, `throbber`), the cut of the
  screen into rows (`layout`), the majority vote of the nearest-neighbour
  guess (`vote`), and properties spanning several operations (`laws`).
- `app/` — the terminal program: drawing, reading keys, running commands in
  threads, and the file-system checks.
- `tests/` — tests of the library.
