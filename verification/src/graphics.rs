//! Capability traits the host implements: a render surface and a window.
//! The simulation calls into them and promises nothing about their effects;
//! what it does promise is proved on the verified logic around the calls.

use vstd::prelude::*;

use crate::geom::Region;
use crate::image::Image;

verus! {

/// What kind of asset a load request names.
#[derive(Clone, Copy, Debug)]
pub enum AssetsType {
    Image,
    File,
    Sound,
}

/// A render surface: the host draws bitmaps, rectangles and text on it.
/// A draw call may fail (for instance on a stale image handle); the failure
/// is reported per call and never touches simulation state.
pub trait Graphics {
    fn fill_rect(&mut self, color: &[u8; 4], x: i64, y: i64, width: i64, height: i64);

    /// Draw `src` (or the whole image when `None`) scaled into `dest`
    /// (or at the origin in full size when `None`).
    fn draw_image(&mut self, image: &Image, src: Option<Region>, dest: Option<Region>) -> Result<
        (),
        String,
    >;

    /// Draw the whole image in full size with its top-left corner at `(x, y)`.
    fn draw_image_at(&mut self, image: &Image, x: i64, y: i64) -> Result<(), String> {
        let width = image.width();
        let height = image.height();
        self.draw_image(image, None, Some(Region { x, y, width, height }))
    }

    fn draw_text(&mut self, content: &str, x: i64, y: i64, color: &[u8; 4], font_size: u32);
}

/// The hosting window: update pacing and asset loading.
pub trait Window {
    fn set_update_rate(&mut self, ups: u64);

    /// Request the assets named by path; the host reports each result back
    /// through its own channels once loaded.
    fn load_assets(&mut self, assets: &[(&str, AssetsType)]);

    /// Register raw RGBA pixel data under a key.
    fn load_image(&mut self, width: u32, height: u32, key: &str, data: Vec<u8>);

    /// Register raw BGRA pixel data under a key.
    fn load_image_bgra(&mut self, width: u32, height: u32, key: &str, data: Vec<u8>);

    /// Render an SVG document and register it under a key.
    fn load_svg(&mut self, key: &str, svg: String);
}

/// A fixed rectangular cut-out of a bitmap.
pub struct SubImage {
    pub image: Image,
    pub region: Region,
}

impl SubImage {
    pub fn new(image: Image, region: Region) -> (r: SubImage)
        ensures
            r.image@ == image@,
            r.region == region,
    {
        SubImage { image, region }
    }

    /// Draw the cut-out scaled into `dest`; the host's surface decides the
    /// outcome, which is handed back unchanged.
    pub fn draw<G: Graphics>(&self, g: &mut G, dest: Region) -> Result<(), String> {
        g.draw_image(&self.image, Some(self.region), Some(dest))
    }
}

} // verus!
