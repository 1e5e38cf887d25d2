use image::{ImageBuffer, ImageFormat, Rgba};
use std::io::Cursor;
use window_class_finder::icon::load_icon;

#[test]
fn icon_decodes_png_pixels() {
    let img: ImageBuffer<Rgba<u8>, Vec<u8>> =
        ImageBuffer::from_fn(3, 2, |x, y| Rgba([x as u8 * 10, y as u8 * 20, 7, 255]));
    let mut bytes: Vec<u8> = Vec::new();
    img.write_to(&mut Cursor::new(&mut bytes), ImageFormat::Png).unwrap();
    let icon = load_icon(&bytes);
    assert_eq!(icon.width, 3);
    assert_eq!(icon.height, 2);
    assert_eq!(icon.rgba, img.into_raw());
}

#[test]
fn icon_of_bad_data_is_empty() {
    let icon = load_icon(b"not an image");
    assert_eq!(icon.width, 0);
    assert_eq!(icon.height, 0);
    assert!(icon.rgba.is_empty());
    let empty = load_icon(&[]);
    assert_eq!(empty.width, 0);
}
