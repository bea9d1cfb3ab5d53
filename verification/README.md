# Badal

Weather and atmospheric modelling engine (बादल — "cloud").

- `src/` — the verified library: cloud, precipitation, intensity, stability
  and threat classifications with their display names; the error type; the
  precipitation-type and threat-level rules, decided from the outcomes of
  their threshold tests; the frost-season calendar; the size check of the
  per-cell fields that drive the fluid solvers.
- `app/` — the floating-point meteorology (ISA atmosphere, moisture,
  pressure, wind, radiation, mesoscale, severe-weather composites), the
  coupling to the `pravash` fluid solvers and `ushma` heat transfer, the
  serde/thiserror-deriving copies of the library's types, and logging.
- `tests/` — tests of the library.
