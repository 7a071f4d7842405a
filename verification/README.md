# vellum-core

The verified core of Vellum, a small image and PDF viewer.

- `src/bitmap.rs`: RGBA8 bitmaps, their validation, conversion to BGRA
  words and PNG encoding.
- `src/document.rs`: opening a document from a file's contents (raster
  image or PDF) and the per-page cache of rasterized PDF pages.
- `src/canvas.rs`: drawing a bitmap, scaled and centred, onto a BGRA canvas.
- `src/viewer.rs`: the viewer window's decisions: current page, keys,
  pages to render ahead, fullscreen.
- `src/status.rs`: the status-bar texts.
- `src/args.rs`: the command line.
- `src/codec.rs`: the calls into `image` and `hayro`, with the contracts
  they are trusted to meet.
- `app/`: the `vellum` program: file access, PDF rasterization (which
  scales with floating point) and, behind the `gui` feature, the ScarletUI
  window.

Run the viewer headless with
`vellum --dump-png page.png --page 0 path/to/file.pdf`.
