# rui

The platform-independent core of the rui user-interface library, written in
Verus and verified.

- `math`: the numeric traits (`Num`, `Ring`, `Field`, `Min`, `Max`, ...) with
  their implementations for the integer types, the partial value `Result`,
  fixed-size `Vector`s with element-wise arithmetic, polynomial and cubic
  bezier evaluation, rectangles, and the polynomial solvers.
- `util`: `Extent`, `Offset`, the set-once `Lazy`, `UnsafeSend`, and the
  one-shot, mpmc and mpsc channels.
- `instance`: the decisions of the main loop (what to do for each event).
- `node`: image nodes and the layout of a node inside its parent.
- `renderer`: the MSAA setting, the flattening of a scene into the
  rectangles, images and paths to draw (`scene`), and the triangle meshes of
  paths (`path_mesh`).
- `font`: the bundled fallback font names.

`app/` holds what stays outside the verified library: timing with printing
and the conversions to floating point.

Not part of this crate: the GPU side of rendering (pipelines, buffers and
render passes, which need a graphics API crate), the platform's windows and
event loop, and the decoding of image files for image nodes (which needs an
image codec crate); the crate depends on `crossbeam` alone. The main loop's
decisions on events and on mount requests are in `instance`. A scene is
flattened once the nodes that its components give have been put in their
places; turning pixel rectangles and colours into the floating-point values
that the GPU reads is left to the caller.
