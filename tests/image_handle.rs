use rs_image::{
    image_adjust_brightness, image_decode, image_encode, image_flip_horizontal,
    image_flip_vertical, image_free, image_from_rgba, image_get_data, image_get_data_len,
    image_get_height, image_get_width, image_grayscale, image_invert, image_replace_pixels,
    image_resize_with_filter, image_rotate_180, image_rotate_270, image_rotate_90, ImageHandle,
    ImageResult, ResizeFilter,
};

/// A `width` by `height` image whose bytes count up from 0.
fn counting(width: u32, height: u32) -> Option<ImageHandle> {
    let n = (width * height * 4) as usize;
    let bytes: Vec<u8> = (0..n).map(|i| (i % 251) as u8).collect();
    image_from_rgba(Some(&bytes), width, height)
}

fn pixels(h: &Option<ImageHandle>) -> Vec<u8> {
    image_get_data(h).unwrap().to_vec()
}

#[test]
fn test_image_result_values() {
    assert_eq!(ImageResult::Success as i32, 0);
    assert_eq!(ImageResult::ErrorInvalidPath as i32, 1);
}

#[test]
fn result_codes_match_boundary_numbers() {
    assert_eq!(ImageResult::Success.code(), 0);
    assert_eq!(ImageResult::ErrorInvalidPath.code(), 1);
    assert_eq!(ImageResult::ErrorInvalidHandle.code(), 2);
    assert_eq!(ImageResult::ErrorLoadFailed.code(), 3);
    assert_eq!(ImageResult::ErrorSaveFailed.code(), 4);
    assert_eq!(ImageResult::ErrorAllocation.code(), 5);
    assert_eq!(ImageResult::ErrorUnsupportedFormat.code(), 6);
}

#[test]
fn from_rgba_reports_dimensions() {
    let h = counting(3, 2);
    assert_eq!(image_get_width(&h), 3);
    assert_eq!(image_get_height(&h), 2);
    assert_eq!(image_get_data_len(&h), 24);
    assert_eq!(pixels(&h), (0..24u8).collect::<Vec<u8>>());
}

#[test]
fn from_rgba_rejects_bad_input() {
    let bytes = vec![0u8; 16];
    assert!(image_from_rgba(None, 2, 2).is_none());
    assert!(image_from_rgba(Some(&bytes), 0, 2).is_none());
    assert!(image_from_rgba(Some(&bytes), 2, 0).is_none());
    assert!(image_from_rgba(Some(&bytes), 3, 2).is_none());
    assert!(image_from_rgba(Some(&bytes[..15]), 2, 2).is_none());
}

#[test]
fn from_rgba_copies_the_buffer() {
    let mut bytes = vec![7u8; 4];
    let h = image_from_rgba(Some(&bytes), 1, 1);
    bytes[0] = 9;
    assert_eq!(pixels(&h), vec![7, 7, 7, 7]);
}

#[test]
fn absent_handle_gives_zero_values_and_errors() {
    let mut none: Option<ImageHandle> = None;
    assert_eq!(image_get_width(&none), 0);
    assert_eq!(image_get_height(&none), 0);
    assert_eq!(image_get_data_len(&none), 0);
    assert!(image_get_data(&none).is_none());
    assert_eq!(image_rotate_90(&mut none), ImageResult::ErrorInvalidHandle);
    assert_eq!(image_rotate_180(&mut none), ImageResult::ErrorInvalidHandle);
    assert_eq!(image_rotate_270(&mut none), ImageResult::ErrorInvalidHandle);
    assert_eq!(image_flip_horizontal(&mut none), ImageResult::ErrorInvalidHandle);
    assert_eq!(image_flip_vertical(&mut none), ImageResult::ErrorInvalidHandle);
    assert_eq!(image_resize_with_filter(&mut none, 2, 2, 0), ImageResult::ErrorInvalidHandle);
    assert_eq!(image_adjust_brightness(&mut none, 10), ImageResult::ErrorInvalidHandle);
    assert_eq!(image_grayscale(&mut none), ImageResult::ErrorInvalidHandle);
    assert_eq!(image_invert(&mut none), ImageResult::ErrorInvalidHandle);
    assert_eq!(image_replace_pixels(&mut none, 1, 1, vec![0; 4]), ImageResult::ErrorInvalidHandle);
    assert_eq!(image_encode(&none, "a.png"), Err(ImageResult::ErrorInvalidHandle));
    assert!(none.is_none());
    image_free(none);
}

#[test]
fn rotate_90_moves_pixels_clockwise() {
    // 2 wide, 1 high: A B becomes a column A over B.
    let mut h = image_from_rgba(Some(&[1, 1, 1, 1, 2, 2, 2, 2]), 2, 1);
    assert_eq!(image_rotate_90(&mut h), ImageResult::Success);
    assert_eq!(image_get_width(&h), 1);
    assert_eq!(image_get_height(&h), 2);
    assert_eq!(pixels(&h), vec![1, 1, 1, 1, 2, 2, 2, 2]);
    // 2 by 2: A B / C D becomes C A / D B.
    let mut h = image_from_rgba(Some(&[1, 1, 1, 1, 2, 2, 2, 2, 3, 3, 3, 3, 4, 4, 4, 4]), 2, 2);
    assert_eq!(image_rotate_90(&mut h), ImageResult::Success);
    assert_eq!(pixels(&h), vec![3, 3, 3, 3, 1, 1, 1, 1, 4, 4, 4, 4, 2, 2, 2, 2]);
}

#[test]
fn rotate_270_moves_pixels_counter_clockwise() {
    let mut h = image_from_rgba(Some(&[1, 1, 1, 1, 2, 2, 2, 2, 3, 3, 3, 3, 4, 4, 4, 4]), 2, 2);
    assert_eq!(image_rotate_270(&mut h), ImageResult::Success);
    assert_eq!(pixels(&h), vec![2, 2, 2, 2, 4, 4, 4, 4, 1, 1, 1, 1, 3, 3, 3, 3]);
}

#[test]
fn rotate_90_four_times_is_identity() {
    let mut h = counting(3, 2);
    let before = pixels(&h);
    for _ in 0..4 {
        assert_eq!(image_rotate_90(&mut h), ImageResult::Success);
    }
    assert_eq!(image_get_width(&h), 3);
    assert_eq!(image_get_height(&h), 2);
    assert_eq!(pixels(&h), before);
}

#[test]
fn rotate_180_equals_rotate_90_twice() {
    let mut a = counting(3, 2);
    let mut b = counting(3, 2);
    assert_eq!(image_rotate_180(&mut a), ImageResult::Success);
    assert_eq!(image_rotate_90(&mut b), ImageResult::Success);
    assert_eq!(image_rotate_90(&mut b), ImageResult::Success);
    assert_eq!(image_get_width(&a), image_get_width(&b));
    assert_eq!(image_get_height(&a), image_get_height(&b));
    assert_eq!(pixels(&a), pixels(&b));
    assert_ne!(pixels(&a), pixels(&counting(3, 2)));
}

#[test]
fn flips_mirror_pixels() {
    let mut h = image_from_rgba(Some(&[1, 1, 1, 1, 2, 2, 2, 2, 3, 3, 3, 3, 4, 4, 4, 4]), 2, 2);
    assert_eq!(image_flip_horizontal(&mut h), ImageResult::Success);
    assert_eq!(pixels(&h), vec![2, 2, 2, 2, 1, 1, 1, 1, 4, 4, 4, 4, 3, 3, 3, 3]);
    let mut v = image_from_rgba(Some(&[1, 1, 1, 1, 2, 2, 2, 2, 3, 3, 3, 3, 4, 4, 4, 4]), 2, 2);
    assert_eq!(image_flip_vertical(&mut v), ImageResult::Success);
    assert_eq!(pixels(&v), vec![3, 3, 3, 3, 4, 4, 4, 4, 1, 1, 1, 1, 2, 2, 2, 2]);
}

#[test]
fn flip_horizontal_twice_is_identity() {
    let mut h = counting(3, 2);
    let before = pixels(&h);
    assert_eq!(image_flip_horizontal(&mut h), ImageResult::Success);
    assert_ne!(pixels(&h), before);
    assert_eq!(image_flip_horizontal(&mut h), ImageResult::Success);
    assert_eq!(pixels(&h), before);
}

#[test]
fn invert_keeps_alpha() {
    let mut h = image_from_rgba(Some(&[0, 10, 255, 77]), 1, 1);
    assert_eq!(image_invert(&mut h), ImageResult::Success);
    assert_eq!(pixels(&h), vec![255, 245, 0, 77]);
}

#[test]
fn invert_twice_is_identity() {
    let mut h = counting(2, 3);
    let before = pixels(&h);
    assert_eq!(image_invert(&mut h), ImageResult::Success);
    assert_eq!(image_invert(&mut h), ImageResult::Success);
    assert_eq!(pixels(&h), before);
}

#[test]
fn brightness_adds_and_saturates() {
    let mut h = image_from_rgba(Some(&[10, 200, 250, 100]), 1, 1);
    assert_eq!(image_adjust_brightness(&mut h, 20), ImageResult::Success);
    assert_eq!(pixels(&h), vec![30, 220, 255, 100]);
    assert_eq!(image_adjust_brightness(&mut h, -40), ImageResult::Success);
    assert_eq!(pixels(&h), vec![0, 180, 215, 100]);
}

#[test]
fn brightness_out_of_range_passes_through() {
    let mut h = image_from_rgba(Some(&[10, 200, 250, 100]), 1, 1);
    assert_eq!(image_adjust_brightness(&mut h, i32::MAX), ImageResult::Success);
    assert_eq!(pixels(&h), vec![255, 255, 255, 100]);
    assert_eq!(image_adjust_brightness(&mut h, i32::MIN), ImageResult::Success);
    assert_eq!(pixels(&h), vec![0, 0, 0, 100]);
}

#[test]
fn resize_changes_dimensions() {
    let mut h = counting(4, 2);
    assert_eq!(image_resize_with_filter(&mut h, 2, 1, 1), ImageResult::Success);
    assert_eq!(image_get_width(&h), 2);
    assert_eq!(image_get_height(&h), 1);
    assert_eq!(image_get_data_len(&h), 8);
}

#[test]
fn resize_keeps_aspect_ratio() {
    let mut h = counting(4, 2);
    assert_eq!(image_resize_with_filter(&mut h, 8, 8, 0), ImageResult::Success);
    assert_eq!(image_get_width(&h), 8);
    assert_eq!(image_get_height(&h), 4);
}

#[test]
fn resize_unknown_filter_is_nearest() {
    let mut a = counting(5, 3);
    let mut b = counting(5, 3);
    assert_eq!(image_resize_with_filter(&mut a, 3, 2, 99), ImageResult::Success);
    assert_eq!(image_resize_with_filter(&mut b, 3, 2, 0), ImageResult::Success);
    assert_eq!(image_get_width(&a), image_get_width(&b));
    assert_eq!(image_get_height(&a), image_get_height(&b));
    assert_eq!(pixels(&a), pixels(&b));
}

#[test]
fn filter_codes_select_kernels() {
    assert_eq!(ResizeFilter::from_code(0), ResizeFilter::Nearest);
    assert_eq!(ResizeFilter::from_code(1), ResizeFilter::Triangle);
    assert_eq!(ResizeFilter::from_code(2), ResizeFilter::CatmullRom);
    assert_eq!(ResizeFilter::from_code(3), ResizeFilter::Gaussian);
    assert_eq!(ResizeFilter::from_code(4), ResizeFilter::Lanczos3);
    assert_eq!(ResizeFilter::from_code(5), ResizeFilter::Nearest);
    assert_eq!(ResizeFilter::from_code(u32::MAX), ResizeFilter::Nearest);
}

#[test]
fn grayscale_scenario() {
    let mut h = image_from_rgba(
        Some(&[255, 0, 0, 255, 0, 255, 0, 255, 0, 0, 255, 255, 255, 255, 255, 255]),
        2,
        2,
    );
    assert_eq!(image_grayscale(&mut h), ImageResult::Success);
    assert_eq!(image_get_data_len(&h), 16);
    assert_eq!(image_get_width(&h), 2);
    assert_eq!(image_get_height(&h), 2);
    let p = pixels(&h);
    for px in p.chunks(4) {
        assert_eq!(px[0], px[1]);
        assert_eq!(px[1], px[2]);
        assert_eq!(px[3], 255);
    }
    assert_ne!(p[0], 255);
    assert_eq!(p[12], 255);
}

#[test]
fn png_round_trip_is_lossless() {
    let h = counting(3, 2);
    let png = image_encode(&h, "out.png").unwrap();
    assert_ne!(png, pixels(&h));
    let first = image_decode(&png, "in.png");
    let again = image_encode(&first, "again.png").unwrap();
    let second = image_decode(&again, "in.png");
    assert_eq!(image_get_width(&first), 3);
    assert_eq!(image_get_height(&first), 2);
    assert_eq!(pixels(&first), pixels(&h));
    assert_eq!(pixels(&second), pixels(&first));
}

#[test]
fn decode_failures_give_none() {
    assert!(image_decode(&[1, 2, 3], "broken.png").is_none());
    let png = image_encode(&counting(1, 1), "x.png").unwrap();
    assert!(image_decode(&png, "no_extension").is_none());
}

#[test]
fn encode_to_unknown_format_fails() {
    let h = counting(1, 1);
    assert_eq!(image_encode(&h, "picture.unknownext"), Err(ImageResult::ErrorSaveFailed));
}

#[test]
fn replace_pixels_swaps_whole_raster() {
    let mut h = counting(2, 2);
    assert_eq!(image_replace_pixels(&mut h, 1, 1, vec![1, 2, 3]), ImageResult::ErrorInvalidHandle);
    assert_eq!(image_get_width(&h), 2);
    assert_eq!(image_replace_pixels(&mut h, 1, 2, vec![9; 8]), ImageResult::Success);
    assert_eq!(image_get_width(&h), 1);
    assert_eq!(image_get_height(&h), 2);
    assert_eq!(pixels(&h), vec![9; 8]);
}

#[test]
fn release_frees_handles() {
    for _ in 0..1000 {
        let mut h = counting(16, 16);
        assert_eq!(image_rotate_90(&mut h), ImageResult::Success);
        image_free(h);
    }
    image_free(None);
}
