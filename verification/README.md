# cosmic_ext_tweaks

The decisions behind a tweaks tool for the COSMIC desktop, written in Verus and
proved against their contracts: what each page does with a message and what it
asks the program to read or write, the ordering and searching of color schemes,
the sizes of the panel, the grid of cards, the arrangement of a layout preview,
the dialogs and drawer of the window, the paint of its buttons, and the
standalone tool with its panel applet.

- `src/` — the verified library.
  - `shell.rs` — the window: drawer, dialog queue, shortcuts, routing, footer.
  - `application.rs` — the window and its pages together: what a message
    does to each, and what is left for the program.
  - `color_schemes/` — the color scheme page: its model, sorting, searching,
    the download and import of schemes, and the laws that hold across messages.
  - `pages/` — the dock, panel, layouts, snapshots, shortcuts and clock pages.
  - `tool/` — the standalone tool's window, pages, configuration and applet.
  - `style.rs`, `grid.rs`, `nav.rs`, `keys.rs`, `config.rs` — shared pieces.
- `tests/` — tests of the library on concrete values.
- `app/` — a terminal program that performs the file and network work the
  library asks for.

Run `verus` on `src/lib.rs` to check the proofs.
