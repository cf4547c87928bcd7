use base64::Engine;
use image::ImageEncoder;
use oxide_dock::pixels::{bgra_to_rgba, has_visible_pixel, icon_data_url, icon_data_url_from_png};

#[test]
fn bgra_swaps_red_and_blue() {
    let bgra: Vec<u8> = vec![1, 2, 3, 4, 5, 6, 7, 8];
    let rgba = bgra_to_rgba(&bgra);
    assert_eq!(rgba, vec![3, 2, 1, 4, 7, 6, 5, 8]);
    assert_eq!(bgra_to_rgba(&Vec::new()), Vec::<u8>::new());
}

#[test]
fn visible_pixel_looks_at_alpha_only() {
    // Color without alpha is invisible.
    assert!(!has_visible_pixel(&vec![255, 255, 255, 0]));
    assert!(has_visible_pixel(&vec![0, 0, 0, 1]));
    assert!(has_visible_pixel(&vec![0, 0, 0, 0, 9, 9, 9, 200]));
    assert!(!has_visible_pixel(&Vec::new()));
}

// The data URL is the fixed prefix plus the real base64 of the bytes: a
// wrapper that handed its argument back unchanged would fail this.
#[test]
fn data_url_wraps_base64() {
    let png_bytes: Vec<u8> = vec![1, 2, 3];
    let url = icon_data_url_from_png(&png_bytes);
    assert_eq!(url, "data:image/png;base64,AQID");

    let empty: Vec<u8> = Vec::new();
    assert_eq!(icon_data_url_from_png(&empty), "data:image/png;base64,");
}

// End to end: a 2x1 RGBA bitmap through the real PNG and base64 encoders
// matches the same pipeline run directly on the outside crates.
#[test]
fn data_url_matches_direct_encoding() {
    let pixels: Vec<u8> = vec![255, 0, 0, 255, 0, 255, 0, 255];
    let url = icon_data_url(&pixels, 2, 1).expect("encoding a valid bitmap succeeds");

    let mut png: Vec<u8> = Vec::new();
    let encoder = image::codecs::png::PngEncoder::new(&mut png);
    encoder
        .write_image(&pixels, 2, 1, image::ExtendedColorType::Rgba8)
        .expect("direct encoding succeeds");
    let expected = format!(
        "data:image/png;base64,{}",
        base64::engine::general_purpose::STANDARD.encode(&png)
    );
    assert_eq!(url, expected);
    assert!(url.starts_with("data:image/png;base64,iVBOR")); // PNG magic
}

// Small fallback bitmaps are upscaled to a fixed side; larger ones pass.
#[test]
fn upscale_only_small_icons() {
    assert_eq!(oxide_dock::pixels::upscale_side(16), Some(128));
    assert_eq!(oxide_dock::pixels::upscale_side(47), Some(128));
    assert_eq!(oxide_dock::pixels::upscale_side(48), None);
    assert_eq!(oxide_dock::pixels::upscale_side(256), None);
}
