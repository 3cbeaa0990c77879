//! Core of a text-rendering engine: glyph atlas building, text layout,
//! lazy mesh regeneration, GPU buffer bookkeeping, and nine-point alignment.
//!
//! All geometry is computed over integers. Metrics are recorded in atlas
//! pixels at the reference font size; layout positions are produced in
//! "layout units", where a coordinate holds `metric * font_size`. Dividing
//! a layout unit by the reference font size yields pixels at the requested
//! size, so a renderer converts by one division per coordinate and every
//! computation up to that point is exact.

pub mod font;
pub mod geometry;
pub mod gui_object;
pub mod mesh;
pub mod text_object;
pub mod texture;
