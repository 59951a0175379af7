use tiedye::raster::Image;

#[test]
fn from_raw_accepts_exact_buffer() {
    let image = Image::from_raw(2, 1, vec![1, 2, 3, 4, 5, 6, 7, 8]).unwrap();
    assert_eq!(image.width(), 2);
    assert_eq!(image.height(), 1);
    assert_eq!(image.dimensions(), (2, 1));
    assert_eq!(image.as_raw(), &[1, 2, 3, 4, 5, 6, 7, 8][..]);
    assert_eq!(image.into_raw(), vec![1, 2, 3, 4, 5, 6, 7, 8]);
}

#[test]
fn from_raw_keeps_a_longer_buffer() {
    let image = Image::from_raw(1, 1, vec![9; 10]).unwrap();
    assert_eq!(image.into_raw(), vec![9; 10]);
}

#[test]
fn from_raw_refuses_a_short_buffer() {
    assert!(Image::from_raw(2, 2, vec![0; 15]).is_none());
    assert!(Image::from_raw(1, 1, Vec::new()).is_none());
}

#[test]
fn from_raw_accepts_empty_images() {
    assert!(Image::from_raw(0, 5, Vec::new()).is_some());
    assert!(Image::from_raw(5, 0, Vec::new()).is_some());
}

#[test]
fn from_raw_refuses_sizes_beyond_memory() {
    assert!(Image::from_raw(u32::MAX, u32::MAX, vec![0; 16]).is_none());
}

#[test]
fn encode_png_round_trips_through_the_decoder() {
    let bytes: Vec<u8> = (0..3 * 2 * 4).map(|i| (i * 10) as u8).collect();
    let img = Image::from_raw(3, 2, bytes.clone()).unwrap();
    let png = tiedye::raster::encode_png(&img).unwrap();
    assert_eq!(&png[..8], &[0x89, b'P', b'N', b'G', 0x0d, 0x0a, 0x1a, 0x0a]);
    let decoded = image::load_from_memory_with_format(&png, image::ImageFormat::Png)
        .unwrap()
        .to_rgba8();
    assert_eq!(decoded.dimensions(), (3, 2));
    assert_eq!(decoded.into_raw(), bytes);
}

#[test]
fn encode_png_is_deterministic() {
    let img = Image::from_raw(2, 2, vec![7; 16]).unwrap();
    assert_eq!(
        tiedye::raster::encode_png(&img).unwrap(),
        tiedye::raster::encode_png(&img).unwrap()
    );
}

#[test]
fn encode_png_of_an_empty_image_fails_as_image_error() {
    for (width, height) in [(0, 0), (0, 3), (3, 0)] {
        let img = Image::from_raw(width, height, Vec::new()).unwrap();
        assert!(matches!(
            tiedye::raster::encode_png(&img),
            Err(tiedye::TiedyeError::ImageError(_))
        ));
    }
}

#[test]
fn encode_png_of_a_single_texel_succeeds() {
    let img = Image::from_raw(1, 1, vec![1, 2, 3, 4]).unwrap();
    assert!(tiedye::raster::encode_png(&img).is_ok());
}
