use quad_sandbox::texture::{copy_layout, header_fits, load_texture, TextureCopy, TextureError, MAX_TEXTURE_SIDE};

fn png(data: &[u8], width: u32, height: u32, color: image::ColorType) -> Vec<u8> {
    let mut out = Vec::new();
    image::png::PNGEncoder::new(&mut out).encode(data, width, height, color).unwrap();
    out
}

#[test]
fn layout_of_packed_rgba() {
    assert_eq!(copy_layout(3, 2, 24), Ok(TextureCopy { width: 3, height: 2, row_pitch: 12 }));
    assert_eq!(copy_layout(256, 256, 262_144), Ok(TextureCopy { width: 256, height: 256, row_pitch: 1024 }));
}

#[test]
fn layout_rejects_empty_image() {
    assert_eq!(copy_layout(0, 5, 0), Err(TextureError::Empty));
    assert_eq!(copy_layout(5, 0, 0), Err(TextureError::Empty));
}

#[test]
fn layout_rejects_wrong_length() {
    assert_eq!(copy_layout(3, 2, 23), Err(TextureError::BadLayout));
    assert_eq!(copy_layout(3, 2, 25), Err(TextureError::BadLayout));
}

#[test]
fn layout_rejects_row_too_wide() {
    assert_eq!(copy_layout(u32::MAX, 1, 0), Err(TextureError::BadLayout));
}

#[test]
fn decodes_rgba_png() {
    let data: Vec<u8> = (0..24u8).collect();
    let bytes = png(&data, 3, 2, image::ColorType::RGBA(8));
    let t = load_texture(&bytes).unwrap();
    assert_eq!(t.copy, TextureCopy { width: 3, height: 2, row_pitch: 12 });
    assert_eq!(t.pixels, data);
}

#[test]
fn rejects_bytes_that_are_not_png() {
    assert!(matches!(load_texture(&[1, 2, 3, 4]), Err(TextureError::Decode)));
}

#[test]
fn rejects_png_not_stored_as_rgba8() {
    let bytes = png(&[0, 64, 128, 255], 2, 2, image::ColorType::Gray(8));
    assert!(matches!(load_texture(&bytes), Err(TextureError::NotRgba8)));
}

fn header(width: u32, height: u32) -> Vec<u8> {
    let mut b = vec![0x89, b'P', b'N', b'G', 0x0d, 0x0a, 0x1a, 0x0a, 0, 0, 0, 13, b'I', b'H', b'D', b'R'];
    b.extend_from_slice(&width.to_be_bytes());
    b.extend_from_slice(&height.to_be_bytes());
    b.extend_from_slice(&[8, 6, 0, 0, 0, 0, 0, 0, 0]);
    b
}

#[test]
fn header_size_limit() {
    assert!(header_fits(&header(MAX_TEXTURE_SIDE, MAX_TEXTURE_SIDE)));
    assert!(!header_fits(&header(MAX_TEXTURE_SIDE + 1, 1)));
    assert!(!header_fits(&header(1, MAX_TEXTURE_SIDE + 1)));
    assert!(header_fits(&[1, 2, 3]));
}

#[test]
fn oversized_header_is_refused_before_decoding() {
    let mut bytes = header((1 << 30) + 1, u32::MAX);
    bytes.extend_from_slice(&[0, 0, 0, 0, b'I', b'D', b'A', b'T', 0, 0, 0, 0]);
    assert!(matches!(load_texture(&bytes), Err(TextureError::TooLarge)));
}

#[test]
fn real_png_header_is_read() {
    let bytes = png(&[0u8; 4 * 5 * 7], 5, 7, image::ColorType::RGBA(8));
    assert!(header_fits(&bytes));
    assert_eq!(&bytes[16..24], &[0, 0, 0, 5, 0, 0, 0, 7]);
}

#[test]
fn truncated_png_does_not_decode() {
    let bytes = png(&[9u8; 16], 2, 2, image::ColorType::RGBA(8));
    assert!(matches!(load_texture(&bytes[..30]), Err(TextureError::Decode)));
}
