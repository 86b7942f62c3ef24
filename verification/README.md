# scop

A verified library (Verus) with a small program around it.

- `src/` — the library, verified by Verus except four small trusted wrappers
  whose contracts are believed: `str::to_lowercase` (in `status`) and ash's
  `api_version_major`, `api_version_minor` and `api_version_patch` (in
  `vulkan`). Its modules:
  - `text`: characters of a string, splitting at separators and whitespace,
    reading `u32` numbers.
  - `obj`, `parser`: the points and triangles of a Wavefront OBJ object and
    the reading of OBJ lines (points, whose coordinates a function given by
    the caller reads; faces of three or four corners, quadrilaterals cut into
    two triangles).
  - `scop`: the command line of the OBJ loader.
  - `vulkan`: the choices of the Vulkan renderer made on plain values
    (device, queue family, features, swapchain size, frame pacing, window
    events, start-up steps) and the decoding of Vulkan version numbers.
  - `order`, `saturating`, `status`, `week`, `ticket_store`, `ticket_index`:
    small data types with their invariants and conversions.
- `app/` — the OBJ loader (file reading, `f32` coordinates), with the
  Vulkan renderer (through ash, sdl2 and vk-mem) and the `f32` vector type
  in modules of their own; `SCOP_PROGRAM=vulkan` runs the SDL2 and Vulkan
  check and `SCOP_PROGRAM=vectors` the vector demonstration.
- `tests/` — tests of the library.
