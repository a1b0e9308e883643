use vstd::prelude::*;

use crate::color::{ColorSrc, RgbColor};
use image::RgbImage;

verus! {

/// An independently loaded RGB raster: three bytes per pixel, row-major,
/// top row first.
#[verifier::external_body]
pub struct RgbRaster {
    img: RgbImage,
}

/// Width and height of a raster.
pub uninterp spec fn raster_dimensions(r: RgbRaster) -> (u32, u32);

/// The raw samples of a raster, three per pixel.
pub uninterp spec fn raster_samples(r: RgbRaster) -> Seq<u8>;

/// Index of the red sample of the pixel at `(x, y)` in a raster `width`
/// pixels wide.
pub open spec fn sample_index(width: int, x: int, y: int) -> int {
    3 * (y * width + x)
}

impl RgbRaster {
    /// Relies on `ImageBuffer::from_raw`: it keeps `data` as the samples and
    /// succeeds exactly when `data` holds three bytes for every pixel.
    #[verifier::external_body]
    fn wrap_raw(width: u32, height: u32, data: Vec<u8>) -> (r: Option<RgbRaster>)
        ensures
            r is Some <==> 3 * width * height <= data@.len(),
            r matches Some(img) ==> raster_dimensions(img) == (width, height)
                && raster_samples(img) == data@,
    {
        match RgbImage::from_raw(width, height, data) {
            Some(img) => Some(RgbRaster { img }),
            None => None,
        }
    }

    /// Relies on `ImageBuffer::dimensions`: the raster's width and height.
    #[verifier::external_body]
    fn size(&self) -> (r: (u32, u32))
        ensures
            r == raster_dimensions(*self),
    {
        self.img.dimensions()
    }

    /// A raster of `width` by `height` pixels over the row-major samples
    /// `data`; `None` when `data` holds fewer than three bytes per pixel.
    pub fn from_raw(width: u32, height: u32, data: Vec<u8>) -> (r: Option<RgbRaster>)
        ensures
            r is Some <==> 3 * width * height <= data@.len(),
            r matches Some(img) ==> raster_dimensions(img) == (width, height)
                && raster_samples(img) == data@,
    {
        RgbRaster::wrap_raw(width, height, data)
    }

    /// Relies on `ImageBuffer::get_pixel`, which reads the three samples of
    /// `(x, y)` from the row-major buffer and panics outside the raster.
    #[verifier::external_body]
    fn pixel(&self, x: u32, y: u32) -> (r: (u8, u8, u8))
        requires
            x < raster_dimensions(*self).0,
            y < raster_dimensions(*self).1,
        ensures
            ({
                let i = sample_index(raster_dimensions(*self).0 as int, x as int, y as int);
                r == (raster_samples(*self)[i], raster_samples(*self)[i + 1], raster_samples(*self)[i + 2])
            }),
    {
        let p = self.img.get_pixel(x, y);
        (p.0[0], p.0[1], p.0[2])
    }
}

impl ColorSrc for RgbRaster {
    type C = RgbColor;

    open spec fn contains(&self, x: int, y: int) -> bool {
        0 <= x < raster_dimensions(*self).0 && 0 <= y < raster_dimensions(*self).1
    }

    open spec fn color_at(&self, x: int, y: int) -> (u8, u8, u8) {
        let i = sample_index(raster_dimensions(*self).0 as int, x, y);
        (raster_samples(*self)[i], raster_samples(*self)[i + 1], raster_samples(*self)[i + 2])
    }

    fn contains_pixel(&self, x: i32, y: i32) -> (r: bool) {
        let (w, h) = self.size();
        0 <= x && (x as u32) < w && 0 <= y && (y as u32) < h
    }

    fn get_pixel(&self, x: i32, y: i32) -> (c: RgbColor) {
        let (r, g, b) = self.pixel(x as u32, y as u32);
        RgbColor { red: r, green: g, blue: b }
    }
}

} // verus!
