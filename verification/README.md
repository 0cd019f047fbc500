# herdr_client

Much of the decision logic of the herdr thin client, verified with Verus: the session's start
and end, the event loop's routing of the events it handles here (input, resizes, frames,
shutdowns, disconnects, failed writes, clipboard, notifications, the housekeeping tick, the ends
of reconnect attempts, host updates, summary subscriptions and registry changes, update progress,
quitting), input filtering and dispatch, the per-server connection
bookkeeping and the repaint cadence, stated as contracts and proved. The wire protocol, the
compositor's layout and most of the supervisor's forms (filter, pickers, the add-remote and
new-session inputs) are not part of it, nor are the summary, picker and API-request results.

- `src/` — the verified library:
  - `attach` — the direct-attach escape prefix and wheel / page-key scrolling;
  - `rawinput` — SGR mouse reports and page-key sequences;
  - `dispatch`, `supervisor` — sidebar and menu dispatch, keyboard focus stepping, the
    supervisor model of servers, rows and overlays;
  - `connections`, `tracking` — the per-server connection bookkeeping of the event loop
    (streams, retries with backoff, manual and terminal stops, outcome timers, refresh
    cadence, the housekeeping tick);
  - `client_loop` — the event loop's routing of those events to state changes and actions;
  - `render`, `schedule` — repaint coalescing, the shell cache, frame windows, timers;
  - `graphics`, `terminal` — kitty graphics in frames, cell-size reports, terminal queries;
  - `errors`, `protocol`, `api`, `launch`, `notify`, `text` — messages, requests, launch
    modes, the handshake, notifications and clipboard payloads.
- `tests/` — tests run against the compiled library.
- `app/` — the edges: the host terminal, environment, signals, threads and stdout.
