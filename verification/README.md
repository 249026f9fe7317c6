# engine

A small terrain toy: a height field made of fractal Perlin noise, with the
noise's permutation table shuffled by one of six hand-written pseudo-random
number generators, and a car model to drive the camera around.

- `src/` is the verified library.
  - `util::rng`: SplitMix64, xorshift64*, xorshift128+, PCG32, LCG64 and
    WyRand, each modelled by its state and a step function on it; `AnyRng`
    and `RngKind` to choose one by name at run time.
  - `plugins::world::floor::perlin`: the seeded, doubled permutation table
    (a Fisher-Yates shuffle driven by the chosen generator), the hashes of
    the lattice corners around a cell, and the gradient direction a hash
    selects.
  - `plugins::world::floor::terrain`: the triangle index buffer of the grid.
- `app/` is the program around it: the Bevy plugins, the floating-point
  half of the noise (fade, interpolation, octaves), mesh building and the
  settings window.
- `tests/` runs the library on concrete values.
