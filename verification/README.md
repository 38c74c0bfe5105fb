# retclock

A desktop clock with an analog and a digital face.

- `src/` is the verified library: dial geometry, tick marks and hands
  (`analog`), the digital faces' fonts and text placement (`digital`),
  zero-padded number formatting (`format`) and the clock's texts (`time`),
  window-style bits (`window`), and what menu commands and clicks do to the
  clock's settings (`events`, `state`).
- `app/main.rs` is the window itself: it builds the frame, menus and timer
  with wxdragon, measures and draws text, turns integer hand and tick
  positions into screen points with floating-point trigonometry, and passes
  each event to the library.
