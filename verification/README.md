# asky

Good looking prompts for the terminal: confirm, toggle, text, number,
password, select, multi-select and message prompts.

The library in `src/` is verified with Verus: the prompts' key handling, their
input state (cursor, pages, selections), what each prompt draws (as drawing
commands, or as colored pieces of text for the theme), and the frame-by-frame
lifecycle of a prompt shown in a frame-driven interface. Public functions
state their results in their contracts; where a result comes from the
caller's closure (a validator) or from a value's `Display` (an option's
title), the contract ties it to that closure's or that `to_string`'s result. `src/laws.rs` holds the properties that
relate several operations (what one key undoes, what a batch of keys does,
what laying text out in lines keeps).

- `src/prompts/`: the prompts and their key handling.
- `src/utils/`: drawing commands, colored pieces, the theme, number types.
- `src/style.rs`: the default style of the prompts' sections.
- `src/text_style_adapter.rs`: a writer of styled runs of text, with a cursor.
- `src/node.rs`: what a frame does with a prompt node, and line layout.
- `src/formatted.rs`: prompts drawn by a custom formatter (`format()`).
- `app/`: the terminal front end (key reading, terminal output, painting).
