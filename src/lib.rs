//! Screen-region color classification and icon-grid geometry.
//!
//! The library samples short horizontal spans of a pixel source, measures
//! their squared RGB distance to reference colors, and picks the reference
//! that matches on both of two mirrored spots. The spot pair is a heuristic
//! for one fixed layout: a recognised element at the left spot is expected
//! to show the same palette at the right one. The library also maps an
//! icon's grid position to the screen point at the centre of that icon.

mod analysis;
mod color;
mod grid;
mod raster;
pub mod robot;
pub mod xinput;

pub use analysis::{
    all_references, analyze_bitmap, average_distance2, color_distance2, deviation_exceeds,
    is_best, is_reference, lemma_all_too_far, lemma_distance_symmetric, lemma_distance_to_self,
    lemma_uniform_span_average, lemma_zero_right_distance, no_match, rgb_distance2,
    sample_distance2, span_average, span_covered, span_sum, square, valid_span, AnalysisOptions,
    MAX_DISTANCE2,
};
pub use color::{
    channels, dib_buffer_len, dib_len, le_word, CaptureError, Color, ColorSrc, RgbColor,
    Win32Bitmap, Win32Color,
};
pub use grid::{
    cell_center, fits_i32, grid_lookup, item_to_screen_pos, lemma_adjacent_cells_spacing,
    lemma_first_cells_spacing, max0, GridError, ItemClass, ItemPos, ScreenInfo,
};
pub use raster::{raster_dimensions, raster_samples, sample_index, RgbRaster};
