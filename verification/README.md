# myall

A launcher of sliding panels along the screen edges, with a web panel that
embeds a web view.

- `src/` is the verified library: the panel table (`panel`), the open/close
  state machines of side and double panels (`side_panel`), the edge hover
  trigger (`trigger`), the web panel controller (`web_panel`) and the
  bookkeeping of web views (`webview`). Each state machine takes the current
  state and one event and returns the next state with the window operations
  to perform.
- `app/` is the program: window creation with slint, monitor queries with
  tao, web views with wry, timers, and the floating-point geometry of the
  panels. It performs the operations that the library decides.
- `tests/` exercises the library on concrete scenarios.
