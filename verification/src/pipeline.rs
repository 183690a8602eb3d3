use vstd::prelude::*;
use crate::error::CompressError;
use crate::image_data::Image;
use crate::rank::rank_for;
use crate::rank::select_rank;

verus! {

/// The maximum possible rank of an image's channel matrices: the smaller of
/// its two dimensions.
pub open spec fn max_rank_of(width: int, height: int) -> int {
    if width <= height {
        width
    } else {
        height
    }
}

/// Validates one compression request and fixes the truncation rank shared by
/// all channels of the image. A level outside `0..=9` is rejected with
/// `InvalidCompressionLevel` at the boundary, before any dimension or matrix
/// work; a zero-width or zero-height image is rejected with
/// `InvalidImageDimensions`. Otherwise the returned rank is
/// `floor(min(width, height) * (10 - level) / 10)`, raised to at least 1.
pub fn plan_compression(img: &Image, level: u8) -> (r: Result<usize, CompressError>)
    requires
        img.wf(),
    ensures
        match r {
            Ok(k) => {
                &&& level <= 9
                &&& img.width > 0
                &&& img.height > 0
                &&& k == rank_for(max_rank_of(img.width as int, img.height as int), level as int)
                &&& 1 <= k <= max_rank_of(img.width as int, img.height as int)
            },
            Err(e) => {
                &&& (level > 9 || img.width == 0 || img.height == 0)
                &&& (e is InvalidCompressionLevel <==> level > 9)
                &&& (e is InvalidImageDimensions <==> (level <= 9 && (img.width == 0
                    || img.height == 0)))
            },
        },
{
    if level > 9 {
        return Err(CompressError::InvalidCompressionLevel);
    }
    if img.width == 0 || img.height == 0 {
        return Err(CompressError::InvalidImageDimensions);
    }
    let max_rank: usize = if img.width <= img.height {
        img.width
    } else {
        img.height
    };
    let k = select_rank(max_rank as u32, level);
    Ok(k as usize)
}

} // verus!
