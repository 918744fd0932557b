# psx

A verified core for a PlayStation 1 SDK, written in Verus.

`src/` is the library, every function of it verified:

- `gpu`: colors, vertices and packed vertices, the display and drawing
  ports (commands queue up as words), display and draw environments, a
  double-buffered framebuffer, status register readings, VRAM commands,
  shapes and the in-memory primitives with their word layouts, linked
  packets, bump allocators and depth ordering tables.
- `graphics`: 16-bit fixed-point numbers, integer and fixed-point vectors
  with table-driven rotations, display-list packets, ordering tables and
  buffers.
- `gte`: the geometry engine's fixed-point numbers, a polynomial sine and
  cosine, and vector packing.

The bump allocators, for primitives and for display-list packets, hold
their words: each allocation lays a fresh packet (its tag, then zeros but
for the command) over the next words and hands out the packet as a value
with its place, which `store` lays back once it has been filled in. The
word buffer of `gpu::primitive` reads a primitive out of the words it
holds, and its `Ptr` writes it back the same way.

`app/` holds what cannot be verified: floating-point conversions and
approximations, and writing queued commands to the GPU's registers.

`tests/` runs the library on concrete values.
