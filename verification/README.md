# raygeo

Toolpath operations for laser cutters and CNC machines: command
sequences, raster scan-line extraction, G-code bookkeeping and the
plan-to-pipeline glue, verified with Verus.

- `src/` is the verified library.
  - `ops/` — command types and their wire names (`enums`), operation
    nodes (`types`), the sequence container and its splitting
    (`container`, `split`), records of named fields (`record`),
    structural markers (`markers`), raster decisions (`raster`), G-code
    line bookkeeping and modal state (`gcode`), macro expansion
    (`macros`), assembly warnings (`assembly`), and the decisions of the
    contour and material-test-grid assemblers (`contour`,
    `material_grid`).
  - `image/` — runs of samples, dot-width trimming, mask bounding boxes
    and image sampling (`scan`), and pixel lines (`line`).
  - `cnc/` — the intent built from a plan (`intent`), folding face
    results of an assembler node (`face_run`), aggregation decisions
    (`aggregate`) and the command-level machine transform
    (`machine_transform`).
  - `text.rs` — string comparison and decimal numbers.
- `app/` holds the real-valued geometry (scan lines, image conversion,
  rotary conversions, matrices, grid layout) that drives the library.
- `tests/` exercises the library.

Real-valued coordinates and parameters are carried through the library
as `f64` bit patterns and are only computed with in `app/`.
