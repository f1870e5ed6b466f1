# raymarching

The verified logic of a small wgpu raymarching viewer.

- `src/cli.rs`: the command line as plain values, how the grid resolution is
  resolved, and the pipeline choices (polygon mode, fragment shader entry,
  colour write mask, channel number) that follow from it.
- `src/texture.rs`: the colour cube texture, its bytes (through `bytemuck`),
  its upload layout, the labels of its bind groups and the depth texture size.
- `src/scene_graph.rs`: a scene graph kept in flat arrays for the GPU, generic
  over the transform type, with its well-formedness and acyclicity.
- `src/events.rs`: what the event loop does for each window event and after
  each drawn frame.

`app/` holds the program around it: clap parsing, the window and the GPU
device, texture and pipeline creation, and the event loop that performs the
actions the library decides. Floating-point work (the grid cell size, the
scene's transform matrices) stays there too.
