use vstd::prelude::*;

verus! {

/// One pixel: red, green and blue intensities plus an alpha value, each an
/// 8-bit intensity in `0..=255`.
#[derive(Clone, Copy, Debug, PartialEq, Eq, Structural)]
pub struct Pixel {
    pub r: u8,
    pub g: u8,
    pub b: u8,
    pub a: u8,
}

/// A rectangular grid of pixels stored row-major: the pixel at column `x`,
/// row `y` sits at index `y * width + x`.
pub struct Image {
    pub width: usize,
    pub height: usize,
    pub pixels: Vec<Pixel>,
}

impl Image {
    /// The pixel buffer matches the dimensions, and each dimension fits the
    /// range a decoded raster image can have.
    pub open spec fn wf(&self) -> bool {
        &&& self.pixels@.len() == self.width * self.height
        &&& self.width <= u32::MAX
        &&& self.height <= u32::MAX
    }

    /// Builds an image from dimensions and a row-major pixel buffer, exactly
    /// when the buffer's length equals `width * height` and both dimensions
    /// are small enough for a raster image.
    pub fn try_new(width: usize, height: usize, pixels: Vec<Pixel>) -> (r: Option<Image>)
        ensures
            r is Some <==> {
                &&& pixels@.len() == width * height
                &&& width <= u32::MAX
                &&& height <= u32::MAX
            },
            r is Some ==> {
                &&& r->Some_0.wf()
                &&& r->Some_0.width == width
                &&& r->Some_0.height == height
                &&& r->Some_0.pixels@ == pixels@
            },
    {
        if width <= u32::MAX as usize && height <= u32::MAX as usize {
            proof {
                assert((width as int) * (height as int) <= 0xFFFF_FFFF * 0xFFFF_FFFF)
                    by (nonlinear_arith)
                    requires
                        width <= 0xFFFF_FFFF,
                        height <= 0xFFFF_FFFF,
                ;
            }
            let need: u64 = (width as u64) * (height as u64);
            if need == pixels.len() as u64 {
                Some(Image { width, height, pixels })
            } else {
                None
            }
        } else {
            None
        }
    }

    /// The pixel at column `x`, row `y`.
    pub fn pixel_at(&self, x: usize, y: usize) -> (p: Pixel)
        requires
            self.wf(),
            x < self.width,
            y < self.height,
        ensures
            p == self.pixels@[y * self.width + x],
    {
        let n = self.pixels.len();
        proof {
            assert((y as int) * (self.width as int) + (x as int)
                < (self.width as int) * (self.height as int)) by (nonlinear_arith)
                requires
                    x < self.width,
                    y < self.height,
            ;
            assert(y * self.width + x < n);
        }
        self.pixels[y * self.width + x]
    }
}

} // verus!
