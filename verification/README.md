# monstertruck

The verified core of a B-rep modeling kernel and its STEP (ISO 10303-21)
loader, written in Verus. Every function under `src/` carries a contract
that Verus proves; the public proof functions named `law_*` state the
properties that hold across calls.

## Layout

- `src/step/` — the STEP side:
  - `parse.rs`: parsing STEP text with `step_p21` into an exchange that
    carries the text it came from and the heads of its instances;
  - `exchange.rs`: routing every instance of the first data section;
  - `numbers.rs`: finding numbers too large for the parser's 64-bit reads;
  - `dispatch.rs`: which entity table a simple record is routed to (by name
    and parameter shape), which positions a positional record is read from,
    and how the partial records of a complex instance are recognised;
  - `census.rs`: counting entity names in raw bytes, without parsing;
  - `decode.rs`: reading file bytes as UTF-8, or as ISO-8859-1 when they are
    not valid UTF-8;
  - `resolve.rs`: resolving references between loaded entities;
  - `report.rs`: the texts of the load report;
  - `surface_curve.rs`, `knots.rs`, `records.rs`: surface-curve kinds,
    implied knot values, and the plain entity records.
- `src/projection.rs` — the solver-attempt plan of projecting a point onto a
  surface inside its parameter domain, the chain that picks the answer, its
  census and its digest.
- `src/containment.rs` — which test decides that a surface contains a curve.
- `src/trim.rs` — which methods find a trim curve's parameter boundary, in
  which order.
- `src/sweep.rs` — the connectors of a sweep.
- `src/boxes.rs` — axis-aligned boxes and the certified box of a solid.
- `src/bounding.rs` — which argument bounds a face, and the diagnosis of faces
  that resist a certified box.
- `src/classes.rs` — class names, content-hash tags and parameter-range facts
  of the geometry variants.
- `src/text.rs` — glyph outlines: placing font points, degenerate contours.
- `src/strings.rs` — string equality and lexicographic order.
- `app/` — the loader around the library: parsing with `step_p21`, serde
  forms of the records, the entity table filled along the library's routes,
  and the floating-point box computations.
- `tests/` — tests on concrete values.

Numerical geometry (evaluation, solvers, floating-point predicates) is not
part of the library: the library decides on the values that geometry hands
it.
