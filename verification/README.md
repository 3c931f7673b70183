# napcat

The protocol, message, plugin and API logic of a OneBot-compatible QQ bot
runtime, written in Verus: the library's functions in `src/` are verified
against their contracts.  The few calls into std and tokio go through small
trusted wrappers whose contracts are believed, not proved.

- `src/` — the verified library.
  - `text`, `json`: character-level helpers and JSON rendering.
  - `message`: the message model, its JSON form and message handlers.
  - `qq_client`, `qq_backend`: the QQ client contract, its in-memory client,
    and the backend that drives a client (session rules, packets, listener steps).
  - `onebot`: the OneBot HTTP backend: request building, reply mapping and
    the listener's rounds.
  - `protocol`, `mock_protocol`: protocol events and errors, inbound packet
    routing, the in-memory backend.
  - `event`, `channels`: the event bus over `tokio` channels.
  - `plugin`, `plugin_registry`: plugin definitions, backends and the
    name-ordered registry.
  - `api`, `api_events`: response envelopes, route answers, long-poll
    batches, event filters and OneBot event payloads.
  - `desktop`: the dashboard snapshot and its start/stop control.
  - `cli`: start-up settings and the protocol backend they call for.
- `app/` — the program around the library: command line, HTTP server,
  network calls, plugin processes and the JSON wire forms.
- `tests/` — tests of the library.
