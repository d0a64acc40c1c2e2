//! The simulation's view of a loaded bitmap: a host-side handle plus the
//! integer dimensions that sizing and placement read. The pixel data itself
//! stays with the host's renderer.

use vstd::prelude::*;

use crate::geom::COORD_LIMIT;

verus! {

/// Mathematical image of an [`Image`].
pub struct ImageModel {
    pub handle: u64,
    pub width: int,
    pub height: int,
}

/// A bitmap as the simulation sees it: an opaque handle that the host's
/// renderer resolves to pixel data, and the bitmap's dimensions.
#[derive(Clone, Copy, Debug)]
pub struct Image {
    handle: u64,
    width: i64,
    height: i64,
}

impl View for Image {
    type V = ImageModel;

    closed spec fn view(&self) -> ImageModel {
        ImageModel { handle: self.handle, width: self.width as int, height: self.height as int }
    }
}

impl Image {
    #[verifier::type_invariant]
    spec fn wf(self) -> bool {
        0 <= self.width <= COORD_LIMIT && 0 <= self.height <= COORD_LIMIT
    }

    pub fn new(handle: u64, width: i64, height: i64) -> (r: Image)
        requires
            0 <= width <= COORD_LIMIT,
            0 <= height <= COORD_LIMIT,
        ensures
            r@ == (ImageModel { handle, width: width as int, height: height as int }),
    {
        Image { handle, width, height }
    }

    pub fn handle(&self) -> (r: u64)
        ensures
            r == self@.handle,
    {
        self.handle
    }

    pub fn width(&self) -> (r: i64)
        ensures
            r as int == self@.width,
            0 <= r <= COORD_LIMIT,
    {
        proof {
            use_type_invariant(&*self);
        }
        self.width
    }

    pub fn height(&self) -> (r: i64)
        ensures
            r as int == self@.height,
            0 <= r <= COORD_LIMIT,
    {
        proof {
            use_type_invariant(&*self);
        }
        self.height
    }
}

} // verus!
