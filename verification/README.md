# leto

An RPC-style HTTP response envelope, `{ data, meta, errors[] }`, with a typed
error model, written in Verus: the library's behaviour is stated in `requires`
/ `ensures` contracts and proved.

## Layout

- `src/` — the verified library.
  - `status.rs`: the transport status and its resolution to a status HTTP
    defines.
  - `code.rs`, `declared.rs`: error codes; codes declared with their wire
    string, message and status; the plan that maps wire codes back onto
    variants (the catch-all never shadows a declared code).
  - `error.rs`: `ApiError`, its builders, its rendering, and the walk of its
    cause chain into client-facing entries.
  - `error_message.rs`, `json.rs`: the client-facing entry and the fields it
    puts on the wire.
  - `response.rs`, `rpc_status.rs`: the envelope, its wire shape, and the
    `x-rpc-status` outcome.
  - `pointer.rs`, `serde_path.rs`, `validate.rs`, `extract.rs`: JSON Pointers,
    body rejections, validation failures, and what the extractors answer.
  - `template.rs`: rendering a declared message template over field values.
  - `report.rs`: which texts of a foreign error chain reach a verbose payload.
  - `ok_or_error.rs`, `wrap_error_code.rs`, `track.rs`: turning absence and
    foreign failures into API errors.
  - `meta_slots.rs`: pagination and rate-limit metadata.
  - `request.rs`, `telemetry.rs`: request ids, root spans, span fields, and
    what gets logged.
- `tests/` — tests of the library.
- `app/` — the I/O side: JSON via serde, the axum / actix-web / poem adapters
  and extractors, and the tracing middleware. It only reads, writes and wires;
  every decision comes from `src/`.
