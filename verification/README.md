# plotters-canvas

The HTML5 canvas backend for Plotters, with its drawing logic verified in Verus.

- `src/` is the verified library. `plan` turns each drawing request (pixel,
  line, rectangle, polyline, polygon, circle, text) into the exact list of
  `CanvasRenderingContext2d` calls that renders it; `geometry` holds the
  half-pixel shift of axis-aligned lines; `color` and `text` the CSS texts the
  canvas takes; `run` decides which call of a plan comes next, stopping at the first that throws;
  `error` the canvas error; `laws` what holds of every plan.
- `app/` is the Plotters `DrawingBackend` itself: it finds the canvas in the
  page, turns Plotters' styles into the library's, and makes the planned calls
  on the browser canvas.
- `tests/` runs the library on concrete requests.
