# g3d

The discrete core of a small 3D graphics library, verified with Verus.

- `src/` — the verified library: polygons and mesh topology, the generated
  models (bodies of revolution, function graphs, regular polyhedra), the
  Wavefront OBJ reader and writer with the proof that a saved file reads back,
  colour blending, and the renderer's settings, shader passes and hidden-face
  removal.
- `tests/` — tests of the library on concrete values.
- `app/` — ordinary Rust around the library: files, real-valued coordinates,
  textures and colour conversions with egui and image.
