# niri

The decision logic of a scrollable-tiling Wayland compositor, verified with Verus.

`src/` is the library. It holds what the compositor decides, as functions from plain values to plain
values, each with a contract:

- `geometry`, `utils`: rectangles, regions, transforms, scales, identifiers, pictures, starting
  programs, watching files.
- `config`: the grammar of the configuration and how it is put together from its files. The texts of
  the files, and values such as numbers with fractions, colors and keys, are handed in.
- `input`: binds, actions, the keyboard, the pointer and its buttons, the wheel, devices.
- `niri`: outputs and where they are placed, what is drawn and in which order, what lies under the
  pointer, what has the keyboard, locking the session, screenshots, reloading the configuration.
- `backend`, `layout`, `render_helpers`: what the rest needs of them.
- `spike`: a test that drives a display through another graphics interface.

Functions whose names begin with `law_` are proofs of properties that span several functions.

Surfaces, windows, clients and outputs are known to the library by number. Where something has to be
asked of them, a function takes what was found out as a view; where something has to be done with them, it
returns commands.

`app/` is the program: arguments, files, processes, timers, and arithmetic with fractions.
`app/vulkan_spike/` is a second program, around `spike`; it needs more system libraries than the first.

`tests/` runs the library on given values.
