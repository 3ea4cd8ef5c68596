# shadowguessr

Verified core of ShadowGuessr, a passive telemetry interceptor and radar for
GeoGuessr duels.

- `src/` — the library, verified with Verus:
  - `hex_codec`, `text` — hexadecimal decoding, UTF-8 decoding and white-space
    trimming, with their specifications;
  - `sniffer` — RFC 6455 unmasking of outgoing WebSocket payloads;
  - `capture` — splitting of capture lines (`text|raw|masking key`) and the
    choice of the JSON text to read;
  - `protocol`, `message`, `errors`, `api` — the protocol data model, panorama
    identifier decoding, the metadata-service address and answer;
  - `processor` — what each protocol event leads to (lookups, forwarded
    messages, the player known as "me");
  - `radar` — the data the main page shows, updated message by message;
  - `settings`, `info` — settings editing and the version shown.
- `tests/` — tests of the library on concrete values.
- `app/` — the program around it: the capture tool process, HTTP requests,
  JSON reading with serde, the worker thread and a console view.

Floating-point values of the protocol are carried as `f64` bit patterns.
