# oculus

A viewer for the structured tracing events that instrumented programs
stream to it over TCP, one JSON event per line. Each connection becomes a
stream shown in a pane of a tabbed window.

- `src/` is the verified library: counting and filtering events (level and
  case-insensitive search), the buffer between the network and data tasks,
  the data task's state machine and what it publishes, the registries of
  streams and panes, and the text and colours each log line is shown with.
- `app/` is the program around it: the tokio tasks, the TCP handling, JSON
  decoding, and the egui window.
- `tests/` exercises the library on concrete events.

The modules `egui_app`, `single_view`, `precompute`, `data_task` and
`frontend2` hold the logic of a single-window viewer (one stream,
one log table, a precomputed layout per line). They are kept as a verified
library only: the program in `app/` runs the tabbed viewer, and no window in
it uses these modules.
