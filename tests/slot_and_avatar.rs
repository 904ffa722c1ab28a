use bsgapp::{FetchError, ProfileImage, Slot, THUMBNAIL_SIZE};

#[test]
fn slot_starts_empty() {
    let s: Slot<u32> = Slot::new();
    assert!(s.is_empty());
    assert_eq!(s.read(), None);
}

#[test]
fn slot_reads_written_value_repeatedly() {
    let mut s: Slot<String> = Slot::new();
    s.write("feed".to_string());
    assert!(!s.is_empty());
    for _ in 0..3 {
        assert_eq!(s.read().map(|v| v.as_str()), Some("feed"));
    }
    s.write("again".to_string());
    assert_eq!(s.read().map(|v| v.as_str()), Some("again"));
}

fn png_bytes(w: u32, h: u32) -> Vec<u8> {
    let img = image::RgbaImage::from_pixel(w, h, image::Rgba([10, 20, 30, 255]));
    let mut out = std::io::Cursor::new(Vec::new());
    image::DynamicImage::ImageRgba8(img)
        .write_to(&mut out, image::ImageOutputFormat::Png)
        .unwrap();
    out.into_inner()
}

#[test]
fn decode_resizes_to_thumbnail() {
    let p = ProfileImage::decode(&png_bytes(3, 5)).unwrap();
    assert_eq!(THUMBNAIL_SIZE, 120);
    assert_eq!(p.width(), 120);
    assert_eq!(p.height(), 120);
    assert_eq!(p.pixels().len(), 4 * 120 * 120);
    assert_eq!(&p.pixels()[0..4], &[10, 20, 30, 255]);
}

#[test]
fn decode_rejects_garbage() {
    assert_eq!(
        ProfileImage::decode(&[1, 2, 3, 4, 5]).err(),
        Some(FetchError::Decode)
    );
}

#[test]
fn from_rgba_rejects_empty_image() {
    assert_eq!(ProfileImage::from_rgba(0, 4, vec![]).err(), Some(FetchError::Decode));
}

#[test]
fn from_rgba_resizes() {
    let p = ProfileImage::from_rgba(2, 1, vec![255, 0, 0, 255, 255, 0, 0, 255]).unwrap();
    assert_eq!(p.pixels().len(), 4 * 120 * 120);
    assert_eq!(&p.pixels()[4 * 500..4 * 501], &[255, 0, 0, 255]);
}

#[test]
fn from_rgba_keeps_thumbnail_sized_samples() {
    let px: Vec<u8> = (0..4 * 120 * 120).map(|i| (i % 251) as u8).collect();
    let p = ProfileImage::from_rgba(120, 120, px.clone()).unwrap();
    assert_eq!(p.pixels(), &px);
}
