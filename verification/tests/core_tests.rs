use svd_compress::assemble_image;
use svd_compress::clamp_to_byte;
use svd_compress::extract_channels;
use svd_compress::plan_compression;
use svd_compress::select_rank;
use svd_compress::CompressError;
use svd_compress::Image;
use svd_compress::Pixel;

fn px(r: u8, g: u8, b: u8, a: u8) -> Pixel {
    Pixel { r, g, b, a }
}

fn patterned_image(width: usize, height: usize) -> Image {
    let mut pixels: Vec<Pixel> = Vec::new();
    for y in 0..height {
        for x in 0..width {
            pixels.push(px(
                ((x * 37 + y * 11) % 256) as u8,
                ((x * 5 + y * 93) % 256) as u8,
                ((x * 71 + y * 3) % 256) as u8,
                ((x + y * 2) % 256) as u8,
            ));
        }
    }
    Image::try_new(width, height, pixels).unwrap()
}

#[test]
fn rank_is_never_below_one() {
    assert_eq!(select_rank(1, 9), 1);
    assert_eq!(select_rank(2, 9), 1);
    assert_eq!(select_rank(9, 9), 1);

    let one_by_one = patterned_image(1, 1);
    assert_eq!(plan_compression(&one_by_one, 9), Ok(1));

    let degenerate = patterned_image(1, 1000);
    assert_eq!(plan_compression(&degenerate, 9), Ok(1));
}

#[test]
fn rank_follows_level_formula() {
    assert_eq!(select_rank(4, 5), 2);
    assert_eq!(select_rank(4, 0), 4);
    assert_eq!(select_rank(100, 3), 70);
    assert_eq!(select_rank(6, 1), 5);
    assert_eq!(select_rank(6, 3), 4);
    assert_eq!(select_rank(6, 7), 1);

    let img = patterned_image(10, 7);
    assert_eq!(plan_compression(&img, 0), Ok(7));
    assert_eq!(plan_compression(&img, 4), Ok(4));
    assert_eq!(plan_compression(&img, 9), Ok(1));
}

#[test]
fn rank_never_grows_with_level() {
    let img = patterned_image(12, 9);
    let mut previous = plan_compression(&img, 0).unwrap();
    for level in 1..=9u8 {
        let k = plan_compression(&img, level).unwrap();
        assert!(k <= previous);
        previous = k;
    }
}

#[test]
fn invalid_level_is_rejected_at_the_boundary() {
    let img = patterned_image(4, 4);
    assert_eq!(plan_compression(&img, 10), Err(CompressError::InvalidCompressionLevel));
    assert_eq!(plan_compression(&img, 255), Err(CompressError::InvalidCompressionLevel));

    // The level is checked before anything else: even a degenerate image
    // reports the bad level, not its dimensions.
    let empty = Image::try_new(0, 5, Vec::new()).unwrap();
    assert_eq!(plan_compression(&empty, 10), Err(CompressError::InvalidCompressionLevel));
}

#[test]
fn zero_dimensions_are_rejected() {
    let no_width = Image::try_new(0, 5, Vec::new()).unwrap();
    assert_eq!(plan_compression(&no_width, 3), Err(CompressError::InvalidImageDimensions));
    assert_eq!(
        extract_channels(&no_width).map(|_| ()),
        Err(CompressError::InvalidImageDimensions)
    );

    let no_height = Image::try_new(7, 0, Vec::new()).unwrap();
    assert_eq!(plan_compression(&no_height, 0), Err(CompressError::InvalidImageDimensions));
    assert_eq!(
        extract_channels(&no_height).map(|_| ()),
        Err(CompressError::InvalidImageDimensions)
    );
}

#[test]
fn clamp_to_byte_clamps_both_ends() {
    assert_eq!(clamp_to_byte(-1), 0);
    assert_eq!(clamp_to_byte(-1_000_000), 0);
    assert_eq!(clamp_to_byte(0), 0);
    assert_eq!(clamp_to_byte(128), 128);
    assert_eq!(clamp_to_byte(255), 255);
    assert_eq!(clamp_to_byte(256), 255);
    assert_eq!(clamp_to_byte(1_000_000_000), 255);
}

#[test]
fn try_new_checks_buffer_length() {
    let pixels = vec![px(1, 2, 3, 4), px(5, 6, 7, 8)];
    assert!(Image::try_new(2, 1, pixels.clone()).is_some());
    assert!(Image::try_new(1, 2, pixels.clone()).is_some());
    assert!(Image::try_new(2, 2, pixels.clone()).is_none());
    assert!(Image::try_new(0, 0, pixels).is_none());
    assert!(Image::try_new(0, 0, Vec::new()).is_some());
}

#[test]
fn pixel_at_reads_row_major() {
    let img = patterned_image(5, 3);
    for y in 0..3 {
        for x in 0..5 {
            let p = img.pixel_at(x, y);
            assert_eq!(p.r, ((x * 37 + y * 11) % 256) as u8);
            assert_eq!(p.g, ((x * 5 + y * 93) % 256) as u8);
        }
    }
}

#[test]
fn extract_channels_splits_planes() {
    let img = patterned_image(6, 4);
    let planes = extract_channels(&img).unwrap();
    assert_eq!(planes.red.len(), 24);
    assert_eq!(planes.green.len(), 24);
    assert_eq!(planes.blue.len(), 24);
    assert_eq!(planes.alpha.len(), 24);
    for y in 0..4 {
        for x in 0..6 {
            let i = y * 6 + x;
            let p = img.pixel_at(x, y);
            assert_eq!(planes.red[i], p.r);
            assert_eq!(planes.green[i], p.g);
            assert_eq!(planes.blue[i], p.b);
            assert_eq!(planes.alpha[i], p.a);
        }
    }
}

#[test]
fn extract_then_assemble_is_identity() {
    let img = patterned_image(7, 5);
    let planes = extract_channels(&img).unwrap();
    let red: Vec<i64> = planes.red.iter().map(|&v| v as i64).collect();
    let green: Vec<i64> = planes.green.iter().map(|&v| v as i64).collect();
    let blue: Vec<i64> = planes.blue.iter().map(|&v| v as i64).collect();
    let out = assemble_image(7, 5, &red, &green, &blue, Some(&planes.alpha));
    assert_eq!(out.width, img.width);
    assert_eq!(out.height, img.height);
    for y in 0..5 {
        for x in 0..7 {
            assert_eq!(out.pixel_at(x, y), img.pixel_at(x, y));
        }
    }
}

#[test]
fn assemble_clamps_out_of_range_values() {
    let red = vec![-5i64, 300, 128, 0];
    let green = vec![300i64, -1, 255, 17];
    let blue = vec![128i64, 128, -200, 256];
    let out = assemble_image(2, 2, &red, &green, &blue, None);
    assert_eq!(out.pixel_at(0, 0), px(0, 255, 128, 255));
    assert_eq!(out.pixel_at(1, 0), px(255, 0, 128, 255));
    assert_eq!(out.pixel_at(0, 1), px(128, 255, 0, 255));
    assert_eq!(out.pixel_at(1, 1), px(0, 17, 255, 255));
}

#[test]
fn assemble_without_alpha_is_opaque() {
    let plane = vec![10i64, 20];
    let out = assemble_image(2, 1, &plane, &plane, &plane, None);
    assert_eq!(out.pixel_at(0, 0).a, 255);
    assert_eq!(out.pixel_at(1, 0).a, 255);
}

#[test]
fn error_messages_name_the_failing_stage() {
    assert_eq!(
        CompressError::InvalidImageDimensions.message(),
        "image has zero width or height"
    );
    assert_eq!(
        CompressError::InvalidCompressionLevel.message(),
        "compression level must be between 0 and 9"
    );
    assert_eq!(
        CompressError::DecompositionError.message(),
        "singular value decomposition failed"
    );
}
