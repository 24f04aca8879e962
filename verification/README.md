# dscrd-status

A daemon that keeps a Discord account's presence online through the gateway,
optionally only inside a daily active window. The decision logic is a Verus
library; the program around it does the I/O.

- `src/` — the verified library:
  - `fingerprint.rs`: the user-agent pool and the Identify fingerprint;
  - `payload.rs`: the outgoing payloads (heartbeat, identify, presence, resume);
  - `heartbeat.rs`: sequence/acknowledgement bookkeeping and the jittered sleep;
  - `gateway.rs`: the per-connection state machine and what carries over
    between connections (session id, resume URL, reconnect pauses);
  - `clock.rs`, `schedule.rs`: the daily window, time-zone resolution of its
    boundaries (gaps and folds included);
  - `scraper.rs`: the search for the client build number in the web assets;
  - `config.rs`: token and status validation.
- `tests/` — tests of the library.
- `app/` — the command-line program: arguments, WebSocket and HTTP I/O, tasks,
  signals, logging, and the JSON form of payloads and frames.
