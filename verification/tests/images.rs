use gpu_singleshot::imaging::{
    alpha_fully_opaque, check_all_clear, check_clear_or_fill, clear_pixels, encode_image,
    ImageError,
};

#[test]
fn clear_image_decodes_to_blue() {
    // The image-clear flow: a 1024 by 1024 image cleared to the fixed colour,
    // encoded, and decoded back; every pixel decodes to RGBA (0, 0, 255, 255).
    let pixels = clear_pixels(1024, 1024);
    assert_eq!(pixels.len(), 1024 * 1024 * 4);
    assert!(check_all_clear(&pixels));
    let png = encode_image(1024, 1024, &pixels).unwrap();
    let decoded = image::load_from_memory(&png).unwrap().to_rgba8();
    assert_eq!(decoded.dimensions(), (1024, 1024));
    for chunk in decoded.into_raw().chunks(4) {
        assert_eq!(chunk, &[0u8, 0u8, 255u8, 255u8]);
    }
}

#[test]
fn encoded_image_has_requested_dimensions() {
    // The fractal flow reads back an arbitrary rendering; whatever the
    // accelerator wrote, the encoded image has exactly the requested
    // dimensions, and a rendering whose every alpha byte is 255 stays fully
    // opaque through encoding.
    let width: u32 = 1024;
    let height: u32 = 1024;
    let mut pixels: Vec<u8> = Vec::with_capacity((width * height * 4) as usize);
    for i in 0..(width * height) {
        pixels.push((i % 251) as u8);
        pixels.push((i % 241) as u8);
        pixels.push((i % 239) as u8);
        pixels.push(255);
    }
    assert!(alpha_fully_opaque(&pixels));
    let png = encode_image(width, height, &pixels).unwrap();
    let decoded = image::load_from_memory(&png).unwrap().to_rgba8();
    assert_eq!(decoded.dimensions(), (width, height));
    for chunk in decoded.into_raw().chunks(4) {
        assert_eq!(chunk[3], 255);
    }
}

#[test]
fn alpha_fully_opaque_detects_transparency() {
    let mut pixels = clear_pixels(4, 4);
    assert!(alpha_fully_opaque(&pixels));
    pixels[4 * 7 + 3] = 0;
    assert!(!alpha_fully_opaque(&pixels));
}

#[test]
fn check_all_clear_detects_other_colours() {
    let mut pixels = clear_pixels(4, 4);
    assert!(check_all_clear(&pixels));
    pixels[0] = 17;
    assert!(!check_all_clear(&pixels));
}

#[test]
fn check_clear_or_fill_accepts_both_colours() {
    // The triangle flow's image holds the clear colour where nothing was
    // drawn and the fragment shader's constant colour inside the triangle.
    let mut pixels = clear_pixels(4, 4);
    assert!(check_clear_or_fill(&pixels));
    // Paint a few pixels with the fill colour.
    for p in [1usize, 5, 6] {
        pixels[4 * p] = 252;
        pixels[4 * p + 1] = 209;
        pixels[4 * p + 2] = 161;
        pixels[4 * p + 3] = 255;
    }
    assert!(check_clear_or_fill(&pixels));
    // Any other colour is neither clear nor fill.
    pixels[4 * 9] = 7;
    assert!(!check_clear_or_fill(&pixels));
}

#[test]
fn encode_rejects_wrong_length() {
    let pixels = vec![0u8; 15];
    assert_eq!(encode_image(2, 2, &pixels), Err(ImageError::DimensionMismatch));
    let pixels = clear_pixels(2, 2);
    assert_eq!(encode_image(2, 3, &pixels), Err(ImageError::DimensionMismatch));
}

#[test]
fn encode_fails_on_zero_width() {
    // A zero-width image has a buffer length that matches its dimensions,
    // but the encoder itself refuses it.
    let pixels: Vec<u8> = Vec::new();
    assert_eq!(encode_image(0, 1, &pixels), Err(ImageError::EncodeFailed));
}

#[test]
fn encode_really_encodes() {
    // The encoder's output is a PNG stream, not the raw buffer handed back:
    // it starts with the PNG signature and decodes to the original pixels.
    let pixels = clear_pixels(2, 2);
    let png = encode_image(2, 2, &pixels).unwrap();
    assert_eq!(&png[0..8], &[137u8, 80, 78, 71, 13, 10, 26, 10]);
    let decoded = image::load_from_memory(&png).unwrap().to_rgba8();
    assert_eq!(decoded.into_raw(), pixels);
}
