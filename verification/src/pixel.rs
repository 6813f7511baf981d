//! The decoded pixel grid and the rule that tells solid pixels apart
//! from empty ones.

use vstd::prelude::*;

verus! {

/// One decoded pixel: 8-bit red, green, blue and alpha channels.
#[derive(Clone, Copy, Debug, PartialEq, Eq, Structural)]
pub struct Pixel {
    pub r: u8,
    pub g: u8,
    pub b: u8,
    pub a: u8,
}

impl Pixel {
    /// A fully opaque pixel of the given color.
    pub fn opaque(r: u8, g: u8, b: u8) -> (p: Pixel)
        ensures
            p == (Pixel { r, g, b, a: 255u8 }),
    {
        Pixel { r, g, b, a: 255 }
    }
}

/// The convention that classifies a pixel as empty.  The two conventions
/// cover images with and without a meaningful alpha channel; one is chosen
/// per run and used for the whole scan, neighbor lookups included.
#[derive(Clone, Copy, Debug, PartialEq, Eq, Structural)]
pub enum PixelClassifier {
    /// A pixel is empty when its alpha channel is zero.
    AlphaZero,
    /// A pixel is empty when its red, green and blue channels are all zero.
    PureBlack,
}

/// Whether `classifier` deems the pixel `p` empty.
pub open spec fn spec_is_empty_pixel(classifier: PixelClassifier, p: Pixel) -> bool {
    match classifier {
        PixelClassifier::AlphaZero => p.a == 0,
        PixelClassifier::PureBlack => p.r == 0 && p.g == 0 && p.b == 0,
    }
}

/// Classifies the pixel `p` as empty or solid.
pub fn is_empty_pixel(classifier: PixelClassifier, p: &Pixel) -> (r: bool)
    ensures
        r == spec_is_empty_pixel(classifier, *p),
{
    match classifier {
        PixelClassifier::AlphaZero => p.a == 0,
        PixelClassifier::PureBlack => p.r == 0 && p.g == 0 && p.b == 0,
    }
}

/// A decoded image: a `width` by `height` grid of pixels stored row-major,
/// row by row from the top, left to right within a row.
pub struct Image {
    pub width: u32,
    pub height: u32,
    pub pixels: Vec<Pixel>,
}

impl Image {
    /// The pixel store holds exactly one pixel per grid cell.
    pub open spec fn wf(&self) -> bool {
        self.pixels@.len() == self.width as int * self.height as int
    }

    /// The pixel of the cell at column `x`, row `y`.
    pub open spec fn spec_pixel(&self, x: int, y: int) -> Pixel {
        self.pixels@[y * self.width as int + x]
    }

    /// Builds an image from its dimensions and row-major pixels; refused
    /// when the pixel count does not match the dimensions.
    pub fn new(width: u32, height: u32, pixels: Vec<Pixel>) -> (r: Option<Image>)
        ensures
            match r {
                Some(img) => img.wf() && img.width == width && img.height == height && img.pixels@
                    == pixels@,
                None => pixels@.len() != width as int * height as int,
            },
    {
        let wv = width as u64;
        let hv = height as u64;
        proof {
            assert(wv * hv <= 0xFFFF_FFFFu64 * 0xFFFF_FFFFu64) by (nonlinear_arith)
                requires
                    wv <= 0xFFFF_FFFFu64,
                    hv <= 0xFFFF_FFFFu64,
            ;
        }
        if pixels.len() as u64 == wv * hv {
            Some(Image { width, height, pixels })
        } else {
            None
        }
    }

    /// Reads the pixel of the cell at column `x`, row `y`.
    pub fn pixel(&self, x: u32, y: u32) -> (p: Pixel)
        requires
            self.wf(),
            x < self.width,
            y < self.height,
        ensures
            p == self.spec_pixel(x as int, y as int),
    {
        let n = self.pixels.len();
        proof {
            lemma_row_major_index_in_range(
                self.width as int,
                self.height as int,
                x as int,
                y as int,
            );
            assert((y as int) * (self.width as int) + (x as int) < n as int);
        }
        let row = (y as usize) * (self.width as usize);
        self.pixels[row + (x as usize)]
    }
}

/// A row-major cell index lies inside the pixel store.
pub(crate) proof fn lemma_row_major_index_in_range(w: int, h: int, x: int, y: int)
    by (nonlinear_arith)
    requires
        0 <= x < w,
        0 <= y < h,
    ensures
        0 <= y * w + x < w * h,
{
}

} // verus!
