# rend3-framework

A windowed rendering framework split in two:

- `src/` — the verified decision core (Verus). `surface` holds the surface
  extents and settings, the surface lifecycle step (`handle_surface`) and the
  surface format choice; `handler` holds the event-handler state machine
  (`HandlerState`: window events, texture acquisition outcomes, suspend and
  resume) with its invariant; `laws` proves properties that span several
  steps, such as "a frame is only drawn on a surface configured with the
  current extent and present mode".
- `app/` — the glue that owns the window, the GPU objects and the event loop,
  performs what the core decides, and defines the `App` trait users implement.
- `tests/` — executable tests of the core.
