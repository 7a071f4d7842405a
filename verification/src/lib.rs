//! Document loading and rasterization core of the Vellum image and PDF viewer.
//!
//! The crate decodes raster images with `image`, parses PDF files with
//! `hayro`, and keeps every page as a row-major RGBA8 bitmap. What it
//! decides (bitmap validation, pixel conversion, page caching, argument
//! parsing, viewer navigation and canvas drawing) is verified; file access,
//! windowing, PDF rasterization and floating-point layout live in the
//! application around it.

pub mod args;
pub mod bitmap;
pub mod canvas;
pub mod codec;
pub mod document;
pub mod error;
pub mod status;
pub mod viewer;

pub use args::{parse_arguments, parse_page_number, Arguments, Command};
pub use bitmap::{Bitmap, BitmapModel, MAX_BITMAP_PIXELS};
pub use canvas::{draw_bitmap_to_canvas, fill_canvas};
pub use document::{is_pdf, title_for, Document, DocumentModel, PageLookup, PageModel};
pub use error::DocumentError;
pub use status::{opened_status, page_status, render_error_status, rendering_status};
pub use viewer::{window_title, Key, KeyOutcome, RenderNotice, Viewer, ViewerModel, ZoomChange};
