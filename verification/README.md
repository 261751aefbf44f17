# menu_builder

A verified library for maintaining a point-of-sale menu database: menu items
and the entities they reference (item groups, price levels, product classes,
tax groups, security levels, revenue and report categories, choice groups and
kitchen printers), written in Rust and proved with Verus.

Layout:

- `src/` — the library. Its functions carry contracts proved by Verus, except
  the small wrappers marked `#[verifier::external_body]` that make the calls
  into `rust_decimal`, `csv` and `String`/`str` (parsing, printing and
  arithmetic of decimals, reading CSV records, lowercasing, pushing text):
  their contracts are believed, not proved, and each says in its doc comment
  what it claims of the outside function. The library's modules:
  - `text.rs`, `money.rs`: text helpers, integer and decimal reading/writing
    (decimals through `rust_decimal`);
  - `data_types.rs`, `entity_component.rs` and one module per entity kind:
    the records, their checks and edit states;
  - `catalog.rs`: copying, editing, saving, creating and cancelling records;
  - `items.rs`, `item_edit.rs`: items, their checks, the item edit form and
    the item list search;
  - `import_items.rs`, `export_items.rs`: the 42-field item file format
    (records read with `csv`);
  - `superedit.rs`, `preview_changes.rs`: conditions and actions that edit
    many items at once, and the preview of their changes;
  - `menu_builder.rs`, `operations.rs`: the application state, deletion with
    clean-up of references, import, and every screen operation.
- `tests/` — tests of the library on concrete values.
- `app/` — a command-line front end: the data file (`ron`, backups with
  timestamps from `chrono`, default place from `directories`), importing and
  exporting item files, listing and showing items.
