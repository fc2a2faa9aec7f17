# wgpu_learn

Host-side logic of a handful of small `wgpu` compute experiments — heat
diffusion on a grid, GPU boids, a ray-traced image generator and two small
neural-network regressors trained on its images — written in Verus and
verified.

- `src/` is the verified library: buffer sizes and layouts, the uniform
  constant blocks, the dispatch plans and binding tables of each compute
  stage, shape validation of batches and weights, the seeded integer
  generators behind the initial weights and boid positions, argument
  parsing, readback decoding, and the BMP/PPM contact-sheet writers.
- `app/` is the program around it: device setup, shader modules, command
  encoding, readback mapping, windowing, files and the floating-point parts
  (weight scaling, boid trigonometry, loss and summary statistics).
  `app compute|boids|train|predict|preview|raytrace-preview|fps-winit|fps-fifo`
  selects a program; the WGSL shaders are read from `$WGPU_LEARN_SHADERS`
  (default `./shaders`).
- `tests/` exercises the library on concrete values.
