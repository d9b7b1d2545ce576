# stackchan_core

The platform-independent core of the StackChan desk robot's character: the
entity model (face, perception, mind, voice, input), the per-frame modifiers
that animate it, the director that orders and runs them, the LED and dance
channels, and the face display list — written in Verus and proved against
their contracts.

Layout:

- `src/` — the verified library. Each module states what its functions do
  in `requires`/`ensures` over spec functions, and proves laws that span
  calls (run order of the director, no-drift composition of the additive
  modifiers, generator invariants, colour and easing bounds).
  `src/registry.rs` holds the trusted boundary to the `heapless` vector
  that backs the director's registry.
- `tests/` — scenario tests run against the compiled library.
- `app/` — the firmware-side companions that work in floating point or
  through outside traits: head pose and motion modifiers, lip-sync, the
  embedded-graphics painter, and the frame loop.
