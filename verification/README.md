# yew_webgl

A WebGL demo page (yew + WebGL2) that draws a field of instanced triangles
falling through the view, with buttons to add or remove batches of
triangles and to zoom the camera.

- `src/` is the verified library:
  - `scene.rs`: the triangles of the scene (kept in whole batches of 300),
    and how the page answers each message (`Scene::update`): which command
    to perform and whether to render again.
  - `shader.rs`: the shader program record and its compilation through
    `web_sys` WebGL2 calls.
  - `label.rs`: the "Triangle count: N" label, with a verified decimal
    printer.
  - `util.rs`: console logging through `gloo`.
- `app/` is the yew component: browser objects, floating-point geometry
  (glam), random triangle generation (rand) and the GL draw calls.
- `tests/` runs the library on concrete values.
