# momir_oracle

A Momir Basic server for Magic: The Gathering. It loads Scryfall's Oracle
card pool, files the creatures by mana value, draws one at random for a
requested mana value (optionally leaving out the creatures of un-sets),
and lays out card images for a receipt printer.

- `src/` is the library, verified with Verus: card models and their text
  helpers, the Oracle pool and its random draw, the bulk-file cache plan,
  Scryfall sets, search pages, melds and addresses, the game registry, the
  console messages, the card layout and its adjustments, text wrapping and
  line placement, the path round the card border, the tone curve applied
  to card art, and the plans of every element renderer (regular, adventure,
  split and meld cards).
- `tests/` runs the library on concrete values.
- `app/` is the program around it: HTTP with Scryfall, the files on disk,
  glyph shaping and pixels, the ESC/POS printer and the web server.

The plans for split and meld cards (`src/split.rs`, `src/meld.rs`) are
verified but nothing in `app/` draws with them yet: the program prints
regular, adventure and two-faced cards.
