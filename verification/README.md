# chimera_tui

Verified core of the Chimera terminal dashboard, written in Verus.

- `src/` is the library. Every function in it is verified against its
  `requires`/`ensures`: list navigation and scrolling, the popup stack, the
  event filters, the panels' state machines (quest list, task manager,
  parliament, security, metrics grid, …) and the integer- and text-valued
  lines of the panels, tagged with a tone; the parts of a line that come
  from floating-point values are handed in as text. Laws that relate several
  calls are public proof functions named `lemma_*`.
- Calls into chrono, sysinfo and std that Verus has no specification for go
  through small trusted items; the doc comment of each says what its
  contract claims, and where a result depends on the machine or the clock,
  what it leaves unsaid.
- `app/` is ordinary Rust around the library: crossterm input conversion,
  ratatui styling, widgets and panel drawing, the float-valued fragments and
  trend windows, the serde_json / MessagePack work behind the event-detail
  popup, and serde-enabled copies of the popup types.
- `tests/` exercises the library on concrete values.
