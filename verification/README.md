# gravity_particles

A particle simulation that runs on the GPU, around a verified core.

- `src/` is the library. It decides what a key does, what each frame uploads,
  when the particle buffer grows and how its contents are carried over, and
  which commands a frame records. Each decision has a contract, and `laws.rs`
  states what holds over any number of frames. Single-precision numbers pass
  through it as bit patterns.
- `app/` is the window and the GPU: it hands the library plain values, does what
  the library asks for, and holds the floating-point arithmetic. The camera, the
  model files and the shaders come in through the traits `Camera` and `Assets`.
- `tests/` runs the library.
