use sitewatch::detector::decode_capture;

#[test]
fn decodes_a_png_into_rgb_pixels() {
    let img: image::RgbImage =
        image::ImageBuffer::from_fn(2, 3, |x, y| image::Rgb([x as u8 * 10, y as u8 * 10, 7]));
    let mut bytes: Vec<u8> = Vec::new();
    img.write_to(&mut std::io::Cursor::new(&mut bytes), image::ImageFormat::Png)
        .expect("encoding a small image succeeds");

    let decoded = decode_capture(&bytes).expect("a valid png decodes");
    assert_eq!(decoded.width, 2);
    assert_eq!(decoded.height, 3);
    assert_eq!(decoded.data, img.into_raw());
}

#[test]
fn garbage_bytes_do_not_decode() {
    assert!(decode_capture(&vec![1, 2, 3, 4]).is_none());
    assert!(decode_capture(&Vec::new()).is_none());
}
