use std::io::Cursor;

use sena::sprite::{sprite_format, SpriteCache, SpriteFormat};

fn encoded(format: image::ImageFormat) -> Vec<u8> {
    let pixels = image::RgbaImage::from_pixel(2, 3, image::Rgba([255, 0, 128, 200]));
    let mut bytes = Vec::new();
    pixels
        .write_to(&mut Cursor::new(&mut bytes), format)
        .expect("test image should encode");
    bytes
}

fn round_trip(format: image::ImageFormat, path: &str) {
    let mut cache = SpriteCache::new();
    let path = path.to_string();
    cache.load(&path, &encoded(format));
    let decoded = cache
        .get(&path)
        .expect("the frame is cached")
        .as_ref()
        .expect("test image should decode");

    assert_eq!(decoded.width, 2);
    assert_eq!(decoded.height, 3);
}

#[test]
fn decodes_png_into_slint_image() {
    round_trip(image::ImageFormat::Png, "frame.png");
}

#[test]
fn decodes_webp_into_slint_image() {
    round_trip(image::ImageFormat::WebP, "frame.webp");
}

#[test]
fn decoded_frames_hold_rgba_pixels() {
    let mut cache = SpriteCache::new();
    let path = "pixels.png".to_string();
    cache.load(&path, &encoded(image::ImageFormat::Png));
    let decoded = cache.get(&path).unwrap().as_ref().unwrap();
    assert_eq!(decoded.rgba.len(), 2 * 3 * 4);
    assert!(decoded.rgba.chunks(4).all(|p| p == [255, 0, 128, 200]));
}

#[test]
fn broken_frames_are_cached_as_failures() {
    let mut cache = SpriteCache::new();
    let path = "broken.webp".to_string();
    assert!(cache.get(&path).is_none());
    cache.load(&path, b"not an image");
    assert!(matches!(cache.get(&path), Some(None)));

    // A later, valid file under the same path does not replace the failure.
    cache.load(&path, &encoded(image::ImageFormat::Png));
    assert!(matches!(cache.get(&path), Some(None)));
}

#[test]
fn a_cached_frame_is_not_decoded_again() {
    let mut cache = SpriteCache::new();
    let path = "idle/000.png".to_string();
    cache.load(&path, &encoded(image::ImageFormat::Png));
    cache.load(&path, b"garbage");
    let decoded = cache.get(&path).unwrap().as_ref().unwrap();
    assert_eq!((decoded.width, decoded.height), (2, 3));

    let other = "idle/001.png".to_string();
    assert!(cache.get(&other).is_none());
    cache.store(&other, None);
    assert!(matches!(cache.get(&other), Some(None)));
    assert!(cache.get(&path).unwrap().is_some());
}

#[test]
fn clearing_forgets_every_frame() {
    let mut cache = SpriteCache::new();
    let path = "idle/000.png".to_string();
    cache.load(&path, &encoded(image::ImageFormat::Png));
    cache.clear();
    assert!(cache.get(&path).is_none());
}

#[test]
fn the_extension_chooses_the_decoder() {
    let mut cache = SpriteCache::new();
    let png = encoded(image::ImageFormat::Png);

    let upper = "IDLE.PNG".to_string();
    cache.load(&upper, &png);
    assert!(matches!(cache.get(&upper), Some(Some(_))));

    let mislabelled = "idle.webp".to_string();
    cache.load(&mislabelled, &png);
    assert!(matches!(cache.get(&mislabelled), Some(None)));

    let unknown = "idle.gif".to_string();
    cache.load(&unknown, &png);
    assert!(matches!(cache.get(&unknown), Some(None)));

    let bare = "idle".to_string();
    cache.load(&bare, &png);
    assert!(matches!(cache.get(&bare), Some(None)));
}

#[test]
fn sprite_formats_follow_the_extension() {
    assert_eq!(sprite_format("a/b.png"), Some(SpriteFormat::Png));
    assert_eq!(sprite_format("a/b.apng"), Some(SpriteFormat::Png));
    assert_eq!(sprite_format("a\\b.WebP"), Some(SpriteFormat::WebP));
    assert_eq!(sprite_format("a/.png"), None);
    assert_eq!(sprite_format("a/b.jpg"), None);
}
