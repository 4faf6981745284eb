# nexrad

A verified core for working with NEXRAD WSR-88D weather radar data: the data
model (radials, sweeps, scans, volume coverage patterns, moments and their
fixed-point gate encoding, radar sites), interchange layouts (polar sweeps,
Cartesian grids, sweep fields), and processing (threshold, correlation
coefficient and median filters, storm-cell component labelling).

Floating-point quantities are carried as IEEE-754 bit patterns, so that every
function of the library can be proved with Verus; the `f32` comparisons the
filters need are decided on the bit patterns.

Layout:

- `src/` — the library, verified with Verus.
  - `model/data` — radials, moments, sweeps, scans, patterns, sweep fields
    and their layout.
  - `model/field` — polar sweeps, Cartesian grids, the assembly of radials
    into a polar layout, and the single-precision metre values its geometry
    check compares (`metres`).
  - `model/meta` — radar sites and the site registry.
  - `process` — filters, storm-cell detection, cell strength (strongest
    gate, strongest-first order) and composite checks.
- `tests/` — tests of the library.
- `app/` — the floating-point layer: decoded values, physical units, the
  radar coordinate system, smoothing, storm-relative velocity, composite and
  cross-section products, storm-cell properties, and error types with
  messages.
