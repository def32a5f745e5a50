# shortcuts

Verified decision logic of global keyboard shortcuts.

- `src/` is the library. `binding` and `tracker` say what a shortcut is and when
  it is pressed or released; `processor` handles reported key events and `input`
  names their keys; `poller` looks at polled keyboard states, with `keyboard`,
  `keymap` and `layout_query`. `laws`, `key_laws` and `query_laws` state what
  holds of the library as a whole.
- `app/` connects the library to the system: a listener for key events on Linux,
  polling on macOS.
- `tests/` run the library on concrete values.

Time is counted in nanoseconds. The functions that read the clock have a
counterpart, with a name that ends in `_at`, which takes the time as an argument.
