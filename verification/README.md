# witer

An iterator-based Win32 window library: a window whose messages are read with a
`for` loop, while a thread of its own pumps the system's messages.

The library is written in Verus. Its decisions carry contracts that Verus proves:

- `src/utilities.rs`: the words and bytes of message parameters, the window
  styles, the Windows version and dark-mode checks, the system cursor's
  visibility flag.
- `src/window/input`: keys (to and from virtual keys, raw keyboard reports),
  mouse buttons, key and button states, modifiers.
- `src/window/input.rs`: the input state that key and button messages update.
- `src/window/message.rs`: the decoding of key, mouse and cursor messages, and
  the route that each window message takes in the window procedure.
- `src/window/data.rs`: the window's state and stage, and what the window does
  on each request (close, visibility, title, theme, cursor, redraw, ...) and on
  each message it receives.
- `src/window/command.rs`: the requests that the main thread posts to the
  window thread.
- `src/compat/egui/clipboard.rs`: an in-app clipboard.

`app/` holds the unverified platform side: the Win32 calls, the window thread
and its synchronisation, floating-point scale factors and logical sizes, and the
message iterator. It changes the window's verified state only through the
library's functions. What it decides itself is how the threads hand messages to
each other, and the floating-point conversions between logical and physical
sizes.

`tests/` runs the library on concrete values.
