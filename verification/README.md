# sidereon_wasm

The JavaScript binding of the sidereon GNSS engine, split in two:

- `src/` is a library verified with Verus: the label vocabularies and their
  parsers, option defaults, input-shape checks and their error messages, the
  RTCM 3 frame scanner and lock-time helpers, the NTRIP client machine's
  state and event mapping, SBAS PRN mapping, OMM epochs and ISO-8601 text,
  CCSDS header rules, GPS C/A code access, batch result lookup, and the
  entry points that read CCSDS, RINEX, TLE and NTRIP sourcetable text into
  the engine's products. Calls into
  `sidereon-core` and `sidereon` go through small trusted wrappers whose
  contracts say what the engine's source does.
- `app/` holds the `wasm-bindgen` exports: it unpacks host values, calls the
  library, runs the float computations of the engine, and packs the results
  into plain JavaScript objects.
- `tests/` exercises the library with the engine linked.

Errors carry a kind (`Type`, `Range`, `Engine`) that `app/` turns into the
matching host exception.
