# cableway_monitor

Monitoring and shutdown decisions for the towers of a mountain cableway:
vibration, wind and ice readings, ice-risk scoring, shutdown strategies and
restart plans, weather impact, alerts, video verification and inspection
records.

The library under `src/` is written in Verus and verified: every public
function states what it returns in its contract, and the laws that tie the
functions together are proof functions beside them.

- `src/models/` — the records (towers, sensors, readings, alerts, strategies,
  inspections, weather, video). Identifiers are the 128-bit values of UUIDs,
  times are Unix seconds, and quantities are integers in hundredths of the unit
  each field names (latitude and longitude in millionths of a degree).
- `src/services/` — the decisions: ice risk, shutdown strategy, weather
  analysis, alerts, towers, sensors, video verification, inspections, sample
  data (with the default administrator), simulated readings, logins and
  password changes.
- `src/db.rs`, `src/store.rs`, `src/rows.rs`, `src/mq.rs`, `src/websocket.rs`, `src/handlers.rs` — stored
  column texts, rows and queries, message subjects and the handling of incoming
  readings, client subscriptions, request checks.
- `src/text.rs`, `src/readings.rs`, `src/paging.rs` — number formatting,
  sums, averages and extremes of readings, pages of lists.
- `src/ids.rs` and the `rfc3339` wrapper in `src/db.rs` — the calls into
  `uuid`, `rand`, `bcrypt` and `chrono`, with the contracts the library
  relies on.

`app/main.rs` is a command-line front end: it reads the configuration from the
environment, readings from JSON files and the time from the system clock, and
prints what the library computes.
