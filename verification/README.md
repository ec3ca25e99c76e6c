# teil.ing desktop client

A tray application that captures a region, a window or a display, or records one of them,
and uploads the result to teil.ing.

- `src/` is the core of the client, verified with Verus: what is captured and where it is cut,
  how frames are timed, how a recording and an upload proceed step by step, what requests are
  made and what the replies mean, how the browser sign-in is answered, where the popover goes.
- `app/` is the application around it: windows, tray icons, files, the keychain and the network.
  It asks the core for the next step and carries it out.
- `tests/` runs the core.

The core never waits and never touches the system. Where something outside has to happen in the
middle of a task, the task is split: one function says what is to be done (an `Effect`, a
`Request` or an action), and another one takes in what came of it.

The few outside functions that the core calls itself (decoding and encoding pictures, JSON,
base64, SHA-256, random bytes, the clock, addresses, the device's name) stand behind small
wrappers, each with a doc comment on what is relied upon.
