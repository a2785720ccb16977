# cortex

The logic of an orthodox (two-panel) file manager as a library whose
behaviour is stated in contracts and proved with Verus.

## Layout

- `src/` — the verified library. Each module states its model in spec
  functions and proves each public function against it:
  - panels, sorting, marks and the application state (`state`, `fs`,
    `vfs`, `cache`, `config`, `operations`);
  - what the interface does with input: keyboard shortcuts (`shortcuts`,
    `actions`, `keyboard`, `cursor`), the mouse (`mouse`), slash, plugin and
    shell commands (`commands`, `special`, `shell`), the context menu
    (`menu`), progress reports and file-system events (`progress`,
    `events`);
  - themes (`theme`), the command palette (`palette`), search filters
    (`search`), memory pools (`memory`), remote listings (`remote`), Git
    status parsing (`git`), the assistant's prompts and routing (`ai`),
    terminal sessions and shells (`terminal`);
  - the windowed mode: the character grid (`screen`), drawing text into a
    pixel frame (`glyph`), the demonstration screen (`demo`) and opening a
    system terminal (`launch`).
- `tests/` — tests run against the compiled library.
- `app/` — a line-oriented front end: it reads directories, runs commands
  and Git, loads the configuration file, and hands plain values to the
  library.

Calls into other crates (`regex`, `humansize`, `chrono`) and into `std`
functions without a specification in `vstd` are made through small trusted
wrappers whose contracts say what the called function returns.

## Design notes

- Maps keyed by strings (the string pool, the path table, the directory
  cache, the keymap, the SSH sessions, the command groups of the palette)
  are held as vectors of key–value pairs in which no key occurs twice. A
  `HashMap` with `String` keys was not tried in this crate: `vstd`'s
  specification of `HashMap` lets lookups be proved for integer keys, while
  these contracts need to speak of what each table holds by its string
  keys. Where the order of a listing matters, the vectors keep insertion
  order, one of the orders a `HashMap` could give.
- The providers of the virtual file system are a closed set
  (`ProviderKind`: local files, archives, SFTP, FTP) rather than trait
  objects.
- The front end in `app/` runs `git`, reads directories, carries out
  confirmed copy, move, delete and directory creation requests, and opens a
  system terminal. Remote connections (SFTP, FTP) and self-update are not
  offered: the crates they need are not part of this build.
- An object taken from an `ObjectPool` goes back with `ObjectPool::release`;
  Verus does not verify `Drop` implementations, so returning it is not tied
  to dropping it.
- The default keymap binds what the user guide lists: Space marks, Ctrl+U
  unmarks all, Alt+1 to Alt+4 sort by name, size, date and extension,
  Ctrl+R refreshes the panels.
- Carrying out a plan of file operations and trying terminals in order are
  step functions (`OperationRun`, `TerminalAttempts`): the front end
  performs each step and reports how it went.
