use vstd::prelude::*;
use crate::channels::ChannelPlanes;
use crate::image_data::Image;
use crate::image_data::Pixel;

verus! {

/// Clamps an integer intensity into `0..=255`: reconstructed values may fall
/// outside the representable range and are floored at 0 and ceilinged at 255.
pub open spec fn clamp_byte(v: int) -> int {
    if v < 0 {
        0
    } else if v > 255 {
        255
    } else {
        v
    }
}

/// A clamped and requantized value is always a valid 8-bit intensity: no
/// reconstructed channel value escapes `0..=255` after reassembly.
pub proof fn lemma_clamp_byte_in_range(v: int)
    ensures
        0 <= clamp_byte(v) <= 255,
{
}

/// The pixel assembled from three reconstructed channel values and an alpha
/// value: each channel is clamped independently, with no dithering or
/// error diffusion.
pub open spec fn assembled_pixel(r: int, g: int, b: int, a: u8) -> Pixel {
    Pixel { r: clamp_byte(r) as u8, g: clamp_byte(g) as u8, b: clamp_byte(b) as u8, a: a }
}

/// Reassembling a pixel's own channel values reproduces that pixel exactly:
/// clamping and requantization are the identity on in-range intensities, so
/// a numerically exact reconstruction loses nothing in assembly.
pub proof fn lemma_reassembly_identity(p: Pixel)
    ensures
        assembled_pixel(p.r as int, p.g as int, p.b as int, p.a) == p,
{
}

/// A numerically exact pipeline is the identity: channel planes that hold
/// exactly the channel values of a pixel sequence reassemble, after clamping
/// and requantization, into those very pixels.
pub proof fn lemma_exact_planes_reassemble_identically(planes: ChannelPlanes, pixels: Seq<Pixel>)
    requires
        planes.represents(pixels),
    ensures
        forall|i: int| 0 <= i < pixels.len() ==> assembled_pixel(
            planes.red@[i] as int,
            planes.green@[i] as int,
            planes.blue@[i] as int,
            planes.alpha@[i],
        ) == pixels[i],
{
    assert forall|i: int| 0 <= i < pixels.len() implies assembled_pixel(
        planes.red@[i] as int,
        planes.green@[i] as int,
        planes.blue@[i] as int,
        planes.alpha@[i],
    ) == pixels[i] by {
        lemma_reassembly_identity(pixels[i]);
    }
}

/// Clamps one reconstructed channel value, already scaled to intensity
/// units, into an 8-bit intensity.
pub fn clamp_to_byte(v: i64) -> (r: u8)
    ensures
        r == clamp_byte(v as int),
{
    if v < 0 {
        0
    } else if v > 255 {
        255
    } else {
        v as u8
    }
}

/// Rebuilds an image from three reconstructed channel planes, each a flat
/// row-major plane of intensities scaled to `0..=255` units but possibly out
/// of range, plus an optional pass-through alpha plane. Every channel value
/// is clamped into `0..=255`; where no alpha plane is supplied the output is
/// fully opaque.
pub fn assemble_image(
    width: usize,
    height: usize,
    red: &Vec<i64>,
    green: &Vec<i64>,
    blue: &Vec<i64>,
    alpha: Option<&Vec<u8>>,
) -> (img: Image)
    requires
        width <= u32::MAX,
        height <= u32::MAX,
        red@.len() == width * height,
        green@.len() == red@.len(),
        blue@.len() == red@.len(),
        alpha is Some ==> alpha->Some_0@.len() == red@.len(),
    ensures
        img.wf(),
        img.width == width,
        img.height == height,
        forall|i: int| 0 <= i < red@.len() ==> img.pixels@[i] == assembled_pixel(
            red@[i] as int,
            green@[i] as int,
            blue@[i] as int,
            (if alpha is Some {
                alpha->Some_0@[i]
            } else {
                255u8
            }),
        ),
{
    let n = red.len();
    let mut pixels: Vec<Pixel> = Vec::new();
    let mut i: usize = 0;
    while i < n
        invariant
            i <= n,
            n == red@.len(),
            green@.len() == n,
            blue@.len() == n,
            alpha is Some ==> alpha->Some_0@.len() == n,
            pixels@.len() == i,
            forall|j: int| 0 <= j < i ==> #[trigger] pixels@[j] == assembled_pixel(
                red@[j] as int,
                green@[j] as int,
                blue@[j] as int,
                (if alpha is Some {
                    alpha->Some_0@[j]
                } else {
                    255u8
                }),
            ),
        decreases n - i,
    {
        let a: u8 = match alpha {
            Some(plane) => plane[i],
            None => 255,
        };
        let p = Pixel {
            r: clamp_to_byte(red[i]),
            g: clamp_to_byte(green[i]),
            b: clamp_to_byte(blue[i]),
            a: a,
        };
        pixels.push(p);
        i = i + 1;
    }
    Image { width, height, pixels }
}

} // verus!
