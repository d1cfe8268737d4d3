//! Verified core of a bridge between an editor's glyph/image display engine and a
//! GPU scene graph: read-only views over host glyph runs, image decoding with a
//! cache for the external rasterizer's output, GPU image slots and transforms, and
//! the per-window frame compositor.
pub mod glyph;
pub mod pixels;
pub mod raster;
pub mod cache;
pub mod decode;
pub mod texture;
pub mod compositor;
