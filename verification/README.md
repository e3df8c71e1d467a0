# aurex

The integer core of the Aurex boot renderer and pulse runtime, verified with
Verus.

- `src/` is the verified library: the bootstrap plan and executor, the mock
  renderer, the boot framebuffer (glyphs, blending, text, checksums), the boot
  timeline's phase split, pulse graphs (validation, node lookup, transition
  choice), portal launches and the prime pulse's layer gates, world blueprints
  and the SplitMix64 mixing behind them, music step scheduling, the sample
  caches, and the text helpers they share. Every public function states its
  result over spec functions and views.
- `tests/` exercises the library on concrete values.
- `app/` holds what the library leaves to ordinary Rust: JSON documents
  (serde), the process environment, the GPU bootstrap (wgpu, pollster,
  bytemuck), and the floating-point presentation logic around the library.
