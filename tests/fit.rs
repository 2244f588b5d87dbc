use shot::error::EncodeError;
use shot::fit::{encode_resized, fit, image_data_to_png, is_rgba8, scaled_dimension, DecodedImage};

fn noisy_image(width: u32, height: u32) -> DecodedImage {
    let mut pixels = Vec::new();
    let mut state: u32 = 12345;
    for _ in 0..(width * height * 4) {
        state = state.wrapping_mul(1103515245).wrapping_add(12345);
        pixels.push((state >> 16) as u8);
    }
    DecodedImage { width, height, pixels }
}

fn decoded_dimensions(png: &[u8]) -> (u32, u32) {
    let img = image::load_from_memory_with_format(png, image::ImageFormat::Png).unwrap();
    (img.width(), img.height())
}

#[test]
fn scaled_dimension_exact_ratio() {
    // r = sqrt(12_000_000 / 3_000_000) = 2
    assert_eq!(scaled_dimension(1000, 12_000_000, 3_000_000), 500);
    assert_eq!(scaled_dimension(1001, 12_000_000, 3_000_000), 500);
    assert_eq!(scaled_dimension(100, 4, 1), 50);
}

#[test]
fn scaled_dimension_floors() {
    // r = sqrt(2), 10 / sqrt(2) = 7.07...
    assert_eq!(scaled_dimension(10, 2, 1), 7);
    // r = 3, 10 / 3 = 3.33...
    assert_eq!(scaled_dimension(10, 9, 1), 3);
    assert_eq!(scaled_dimension(0, 9, 1), 0);
}

#[test]
fn scaled_dimension_saturates_on_empty_length() {
    assert_eq!(scaled_dimension(7, 0, 3), u32::MAX);
}

#[test]
fn scaled_dimension_matches_float_formula() {
    let (w, len, target) = (4000u32, 25_000_000usize, 3_000_000usize);
    let ratio = (len as f64 / target as f64).sqrt();
    assert_eq!(scaled_dimension(w, len, target), (w as f64 / ratio) as u32);
}

#[test]
fn rgba_check() {
    assert!(is_rgba8(&noisy_image(3, 2)));
    let bad = DecodedImage { width: 3, height: 2, pixels: vec![0; 23] };
    assert!(!is_rgba8(&bad));
}

#[test]
fn png_encoding_round_trips_dimensions() {
    let img = noisy_image(5, 3);
    let png = image_data_to_png(&img).unwrap();
    assert_eq!(&png[..8], &[0x89, b'P', b'N', b'G', 0x0d, 0x0a, 0x1a, 0x0a]);
    assert_eq!(decoded_dimensions(&png), (5, 3));
    let decoded = image::load_from_memory(&png).unwrap().to_rgba8().into_raw();
    assert_eq!(decoded, img.pixels);
}

#[test]
fn mismatched_buffer_is_unsupported() {
    let short = DecodedImage { width: 4, height: 4, pixels: vec![0; 63] };
    assert_eq!(image_data_to_png(&short).err(), Some(EncodeError::Unsupported));
    assert_eq!(fit(&short, 10_000_000, 3_000_000).err(), Some(EncodeError::Unsupported));
    let long = DecodedImage { width: 4, height: 4, pixels: vec![0; 65] };
    assert_eq!(fit(&long, 10_000_000, 3_000_000).err(), Some(EncodeError::Unsupported));
}

#[test]
fn zero_dimensions_fail_to_encode() {
    let empty = DecodedImage { width: 0, height: 0, pixels: Vec::new() };
    assert_eq!(fit(&empty, 10_000_000, 3_000_000).err(), Some(EncodeError::Io));
    let flat = DecodedImage { width: 5, height: 0, pixels: Vec::new() };
    assert_eq!(image_data_to_png(&flat).err(), Some(EncodeError::Io));
}

#[test]
fn fit_under_limit_returns_first_encoding() {
    let img = noisy_image(16, 16);
    let png = image_data_to_png(&img).unwrap();
    let payload = fit(&img, 10_000_000, 3_000_000).unwrap();
    assert_eq!(payload.bytes, png);
    assert_eq!((payload.width, payload.height), (16, 16));
    let exact = fit(&img, png.len(), png.len()).unwrap();
    assert_eq!(exact.bytes, png);
}

#[test]
fn fit_over_limit_resizes_once() {
    let img = noisy_image(64, 40);
    let len = image_data_to_png(&img).unwrap().len();
    let (hard_limit, target) = (len - 1, len / 4);
    let payload = fit(&img, hard_limit, target).unwrap();
    let ratio = (len as f64 / target as f64).sqrt();
    let (nw, nh) = ((64.0 / ratio) as u32, (40.0 / ratio) as u32);
    assert_eq!((payload.width, payload.height), (nw, nh));
    assert_eq!((nw, nh), (scaled_dimension(64, len, target), scaled_dimension(40, len, target)));
    assert!(nw < 64 && nh < 40);
    assert_eq!(decoded_dimensions(&payload.bytes), (nw, nh));
}

#[test]
fn fit_does_not_loop_when_still_too_big() {
    let img = noisy_image(32, 32);
    let payload = fit(&img, 10, 5).unwrap();
    assert!(payload.bytes.len() > 10);
    assert_eq!(decoded_dimensions(&payload.bytes), (payload.width, payload.height));
}

#[test]
fn fit_non_square_rounds_each_axis() {
    let img = noisy_image(30, 7);
    let len = image_data_to_png(&img).unwrap().len();
    let target = len / 5;
    let payload = fit(&img, len - 1, target).unwrap();
    assert_eq!(payload.width, scaled_dimension(30, len, target));
    assert_eq!(payload.height, scaled_dimension(7, len, target));
    let w = payload.width as u128;
    assert!(w * w * (len as u128) <= 30 * 30 * (target as u128));
    assert!((w + 1) * (w + 1) * (len as u128) > 30 * 30 * (target as u128));
}

#[test]
fn encode_resized_is_plain_png_encoding() {
    let img = noisy_image(6, 5);
    let payload = encode_resized(&img.pixels, 6, 5).unwrap();
    assert_eq!(payload.bytes, image_data_to_png(&img).unwrap());
    assert_eq!((payload.width, payload.height), (6, 5));
    assert_eq!(decoded_dimensions(&payload.bytes), (6, 5));
    assert_eq!(encode_resized(&Vec::new(), 0, 3).err(), Some(EncodeError::Io));
}
