use vstd::prelude::*;
use crate::error::CompressError;
use crate::image_data::Image;
use crate::image_data::Pixel;

verus! {

/// One flat, row-major plane of 8-bit intensities per channel of an image:
/// entry `y * width + x` of a plane is the intensity of that channel at
/// column `x`, row `y`. The red, green and blue planes are the channel
/// matrices handed to the numeric collaborator (which normalizes each entry
/// by 255 before decomposing); the alpha plane is never compressed and is
/// only carried through for reassembly.
pub struct ChannelPlanes {
    pub red: Vec<u8>,
    pub green: Vec<u8>,
    pub blue: Vec<u8>,
    pub alpha: Vec<u8>,
}

impl ChannelPlanes {
    /// The planes hold exactly the channel values of `pixels`, position by
    /// position.
    pub open spec fn represents(&self, pixels: Seq<Pixel>) -> bool {
        &&& self.red@.len() == pixels.len()
        &&& self.green@.len() == pixels.len()
        &&& self.blue@.len() == pixels.len()
        &&& self.alpha@.len() == pixels.len()
        &&& forall|i: int| 0 <= i < pixels.len() ==> {
            &&& self.red@[i] == #[trigger] pixels[i].r
            &&& self.green@[i] == pixels[i].g
            &&& self.blue@[i] == pixels[i].b
            &&& self.alpha@[i] == pixels[i].a
        }
    }
}

/// Splits an image into one plane per channel, rejecting degenerate images:
/// a zero-width or zero-height image has no channel matrix to decompose and
/// fails fast with `InvalidImageDimensions`, before any numeric work.
pub fn extract_channels(img: &Image) -> (r: Result<ChannelPlanes, CompressError>)
    requires
        img.wf(),
    ensures
        r is Ok <==> (img.width > 0 && img.height > 0),
        r is Ok ==> r->Ok_0.represents(img.pixels@),
        r is Err ==> r->Err_0 is InvalidImageDimensions,
{
    if img.width == 0 || img.height == 0 {
        return Err(CompressError::InvalidImageDimensions);
    }
    let n = img.pixels.len();
    let mut red: Vec<u8> = Vec::new();
    let mut green: Vec<u8> = Vec::new();
    let mut blue: Vec<u8> = Vec::new();
    let mut alpha: Vec<u8> = Vec::new();
    let mut i: usize = 0;
    while i < n
        invariant
            i <= n,
            n == img.pixels@.len(),
            red@.len() == i,
            green@.len() == i,
            blue@.len() == i,
            alpha@.len() == i,
            forall|j: int| 0 <= j < i ==> {
                &&& red@[j] == #[trigger] img.pixels@[j].r
                &&& green@[j] == img.pixels@[j].g
                &&& blue@[j] == img.pixels@[j].b
                &&& alpha@[j] == img.pixels@[j].a
            },
        decreases n - i,
    {
        let p = img.pixels[i];
        red.push(p.r);
        green.push(p.g);
        blue.push(p.b);
        alpha.push(p.a);
        i = i + 1;
    }
    let planes = ChannelPlanes { red, green, blue, alpha };
    assert(planes.represents(img.pixels@));
    Ok(planes)
}

} // verus!
