//! The pixel grid that the engine reads.

use vstd::prelude::*;
use crate::color::Luv;

verus! {

/// A grid of perceptual colors, row by row from the top left.
#[derive(Debug)]
pub struct LuvImage {
    width: usize,
    height: usize,
    pixels: Vec<Luv>,
}

impl LuvImage {
    #[verifier::type_invariant]
    spec fn well_formed(self) -> bool {
        self.pixels@.len() == self.width * self.height
    }

    /// The number of pixels in a row.
    pub closed spec fn spec_width(&self) -> usize {
        self.width
    }

    /// The number of rows.
    pub closed spec fn spec_height(&self) -> usize {
        self.height
    }

    /// The pixels, row by row.
    pub closed spec fn view(&self) -> Seq<Luv> {
        self.pixels@
    }

    /// The pixel in column `x` of row `y`.
    pub open spec fn pixel(&self, x: int, y: int) -> Luv {
        self@[y * self.spec_width() + x]
    }

    /// The 2x2 block of pixels behind the character cell in column `x` of
    /// row `y`: upper left, upper right, lower left, lower right.
    pub open spec fn block(&self, x: int, y: int) -> Seq<Luv> {
        seq![
            self.pixel(2 * x, 2 * y),
            self.pixel(2 * x + 1, 2 * y),
            self.pixel(2 * x, 2 * y + 1),
            self.pixel(2 * x + 1, 2 * y + 1),
        ]
    }

    /// A grid of `width` by `height` pixels, if `pixels` holds exactly that
    /// many.
    pub fn new(width: usize, height: usize, pixels: Vec<Luv>) -> (img: Option<LuvImage>)
        ensures
            img is Some <==> pixels@.len() == width * height,
            img matches Some(i) ==> i.spec_width() == width && i.spec_height() == height && i@
                == pixels@,
    {
        let len = pixels.len();
        match width.checked_mul(height) {
            Some(n) => {
                if len == n {
                    Some(LuvImage { width, height, pixels })
                } else {
                    None
                }
            },
            None => None,
        }
    }

    /// The number of pixels in a row.
    #[verifier::when_used_as_spec(spec_width)]
    pub fn width(&self) -> (w: usize)
        ensures
            w == self.spec_width(),
    {
        self.width
    }

    /// The number of rows.
    #[verifier::when_used_as_spec(spec_height)]
    pub fn height(&self) -> (h: usize)
        ensures
            h == self.spec_height(),
    {
        self.height
    }

    /// The pixel in column `x` of row `y`.
    pub fn get_pixel(&self, x: usize, y: usize) -> (c: Luv)
        requires
            x < self.spec_width(),
            y < self.spec_height(),
        ensures
            c == self.pixel(x as int, y as int),
    {
        let len = self.pixels.len();
        proof {
            use_type_invariant(self);
            assert(0 <= y * self.width && y * self.width + x < self.width * self.height)
                by (nonlinear_arith)
                requires
                    0 <= x < self.width,
                    0 <= y < self.height,
            ;
            assert(self.width * self.height == len);
        }
        self.pixels[y * self.width + x]
    }

    /// The 2x2 block of pixels behind the character cell in column `x` of
    /// row `y`.
    pub fn get_block(&self, x: usize, y: usize) -> (colors: [Luv; 4])
        requires
            2 * x + 1 < self.spec_width(),
            2 * y + 1 < self.spec_height(),
        ensures
            colors@ == self.block(x as int, y as int),
    {
        let colors = [
            self.get_pixel(2 * x, 2 * y),
            self.get_pixel(2 * x + 1, 2 * y),
            self.get_pixel(2 * x, 2 * y + 1),
            self.get_pixel(2 * x + 1, 2 * y + 1),
        ];
        assert(colors@ =~= self.block(x as int, y as int));
        colors
    }
}

} // verus!
