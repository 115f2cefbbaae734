# procedural_course

Random freestyle drone courses.

- `src/` (the verified library): colour palettes, the forms of landmarks,
  clusters and scattered obstacles chosen by a roll, gate height bands,
  course-level counts, circuit gate colours, the parts of each landmark,
  cluster and obstacle form with the palette colour each part takes, and
  the placement schedule
  (each object is offered up to a fixed number of positions). Random draws
  go through one trusted wrapper around `rand::Rng::random_range`.
- `app/`: the floating-point geometry (positions, sizes, angles, spacing
  tests and the spawn orientation with `nalgebra`), which produces a list of
  shapes for the engine's mesh builder.
- `tests/`: the rules on concrete values.
