# winit monitors, verified

The monitor part of winit as a Verus library.

- `src/dpi.rs`: physical sizes and positions.
- `src/monitor.rs`: `MonitorHandle` and `VideoModeHandle`, their views, the
  ordering of monitors and of video modes, and the laws of those orders.
- `src/text.rs`: decimal notation and the text of a video mode.
- `src/scale.rs`: the choice of the monitor whose scale factor applies to a
  position, from per-monitor hits.
- `app/lib.rs`: the floating-point part: scale factors, logical monitor
  bounds and the per-monitor hit tests.
