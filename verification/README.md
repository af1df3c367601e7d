# shell_core

The verified core of a desktop shell that shows several web services side by
side with an AI companion.

- `src/` is the library, verified with Verus: the application state
  (`state`), the service list (`services`, `multisets`), the AI companion
  (`ai`), webview bookkeeping (`webviews`), unread counts (`badges`), the
  layout tree (`layout`), the sign-in popup rules (`popup`), the script that
  types into the companion (`script`), address parsing (`urls`), the clock
  (`clock`) and string helpers (`text`, `seqs`).
- `app/` is the Tauri side: the commands, which call the library and then do
  the window work, serialisable copies of the service types, and the
  floating-point computation of pane rectangles.
- `tests/` runs the library on concrete values.
