# dnaonecalc_host

The verified core of the DNA OneCalc host user interface, written in Verus.

- `src/text.rs`: char-level helpers (offsets count chars, never bytes).
- `src/adapters.rs`, `src/services.rs`: the plain data that the formula
  engine and the host services hand to the user interface.
- `src/ui/editor/`: the formula editor's surface state, its commands
  (caret moves, indent and outdent), the overlay geometry on a character
  grid, and the syntax runs that colour the text; `command_laws.rs` and
  `projection_laws.rs` hold the laws that relate them.
- `src/ui/panels/`: the view models of the Explore, Inspect and Workbench
  panels and of the value panel.
- `src/ui/components/`: the text decisions of the shell components
  (labels, slugs, splicing, encodings).
- `app/`: the browser side: reading a textarea's layout, the clipboard,
  the clock, and the formatting of floating-point cells.
- `tests/`: executable tests of the library.

Floating-point numbers are carried through the library as their IEEE-754
bit patterns (`u64`); only `app/` turns them back into `f64`.

The crate holds no view layer. The shell's HTML rendering, which is built
with the leptos framework, is not included, and leptos is not a
dependency: the models, policies and text decisions that the views show
are here (for example `home_shell_key_action`, `formula_editor_surface_model`
and `manual_import_request`), verified, so that a view only has to display
them.
