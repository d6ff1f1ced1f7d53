# gr_raytracer

The discrete core of a dual CPU / GPU general relativity ray tracer, verified
with Verus.

- `src/` is the verified library: the charts and tangent spaces coordinates are
  read in, the tags and buffer layouts under which photons and results cross to
  and from the GPU kernel, texture lookup by id, the order in which pixels are
  traced and the encoding of the final frame, the pixel numbering shown by the
  window, and the decisions that stop a traced ray or act on an object hit.
- `app/` is the renderer around it: geometry, metrics, geodesic integration,
  shading and texture sampling (all on 32-bit floats), the wgpu kernels, image
  loading and the window.
- `tests/` exercises the library on concrete values.

The renderer reads its WGSL kernels from `shaders/` and its textures from
`assets/textures/` at run time.
