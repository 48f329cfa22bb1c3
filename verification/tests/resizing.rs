use std::borrow::Cow;
use toico::raster::SourceImage;
use toico::size::IconSize;

fn gradient(width: u32, height: u32) -> SourceImage {
    let mut pixels = Vec::new();
    for y in 0..height {
        for x in 0..width {
            pixels.push((x * 255 / width.max(1)) as u8);
            pixels.push((y * 255 / height.max(1)) as u8);
            pixels.push(((x + y) % 256) as u8);
            pixels.push(255);
        }
    }
    SourceImage::from_raw(width, height, pixels).unwrap()
}

fn uniform(width: u32, height: u32, colour: [u8; 4]) -> SourceImage {
    let mut pixels = Vec::new();
    for _ in 0..(width * height) {
        pixels.extend_from_slice(&colour);
    }
    SourceImage::from_raw(width, height, pixels).unwrap()
}

#[test]
fn resize_to_own_size_borrows_the_image() {
    let image = gradient(64, 64);
    let size = IconSize::new(64).unwrap();
    assert!(image.can_resize(size));
    match image.resize_square(size) {
        Cow::Borrowed(same) => {
            assert!(std::ptr::eq(same, &image));
            assert_eq!(same.pixels(), image.pixels());
        }
        Cow::Owned(_) => panic!("a matching image must not be resampled"),
    }
}

#[test]
fn resize_gives_the_requested_square() {
    let image = gradient(500, 300);
    for side in [1u32, 16, 24, 32, 48, 64, 128, 256, 300, 500] {
        let size = IconSize::new(side).unwrap();
        assert!(image.can_resize(size));
        let square = image.resize_square(size);
        assert_eq!(square.width(), side);
        assert_eq!(square.height(), side);
        assert_eq!(square.pixels().len(), (4 * side * side) as usize);
    }
}

#[test]
fn resize_of_square_source_to_other_size_is_fresh() {
    let image = gradient(32, 32);
    let square = image.resize_square(IconSize::new(16).unwrap());
    assert!(matches!(square, Cow::Owned(_)));
    assert_eq!(square.width(), 16);
    assert_eq!(square.height(), 16);
}

#[test]
fn resize_of_matching_width_only_resamples() {
    let image = gradient(64, 32);
    let square = image.resize_square(IconSize::new(64).unwrap());
    assert!(matches!(square, Cow::Owned(_)));
    assert_eq!((square.width(), square.height()), (64, 64));
}

#[test]
fn resize_keeps_a_uniform_colour() {
    let colour = [10u8, 200, 30, 255];
    let image = uniform(8, 8, colour);
    let square = image.resize_square(IconSize::new(16).unwrap());
    assert_eq!(square.pixels().len(), 4 * 16 * 16);
    for pixel in square.pixels().chunks(4) {
        assert_eq!(pixel, &colour);
    }
}

#[test]
fn resize_shrinks_a_uniform_colour() {
    let colour = [0u8, 0, 255, 255];
    let image = uniform(100, 40, colour);
    let square = image.resize_square(IconSize::new(24).unwrap());
    for pixel in square.pixels().chunks(4) {
        assert_eq!(pixel, &colour);
    }
}

#[test]
fn resize_keeps_left_and_right_apart() {
    let mut pixels = Vec::new();
    for _y in 0..32 {
        for x in 0..32 {
            let v = if x < 16 { 0u8 } else { 255u8 };
            pixels.extend_from_slice(&[v, v, v, 255]);
        }
    }
    let image = SourceImage::from_raw(32, 32, pixels).unwrap();
    let square = image.resize_square(IconSize::new(8).unwrap());
    let row = &square.pixels()[..4 * 8];
    assert!(row[0] < 64);
    assert!(row[4 * 7] > 192);
}

#[test]
fn resize_of_empty_source_gives_blank_square() {
    let image = SourceImage::from_raw(0, 0, Vec::new()).unwrap();
    let square = image.resize_square(IconSize::new(4).unwrap());
    assert_eq!((square.width(), square.height()), (4, 4));
    assert_eq!(square.pixels(), vec![0u8; 64].as_slice());
}

#[test]
fn can_resize_counts_sixteen_bytes_for_each_pixel_of_the_strip() {
    let wide = SourceImage::from_raw(u32::MAX, 0, Vec::new()).unwrap();
    for side in [1u32, 1 << 20, 1 << 27, (1 << 27) + 1, 1 << 28] {
        let strip = 16 * (u32::MAX as u128) * (side as u128);
        let square = 4 * (side as u128) * (side as u128);
        let limit = isize::MAX as u128;
        assert_eq!(
            wide.can_resize(IconSize::new(side).unwrap()),
            strip <= limit && square <= limit
        );
    }
    if usize::BITS == 64 {
        assert!(wide.can_resize(IconSize::new(1 << 27).unwrap()));
        assert!(!wide.can_resize(IconSize::new((1 << 27) + 1).unwrap()));
    }
}

#[test]
fn can_resize_counts_four_bytes_for_each_pixel_of_the_square() {
    let empty = SourceImage::from_raw(0, 0, Vec::new()).unwrap();
    if usize::BITS == 64 {
        assert!(empty.can_resize(IconSize::new(1_518_500_249).unwrap()));
        assert!(!empty.can_resize(IconSize::new(1_518_500_250).unwrap()));
    }
}

#[test]
fn can_resize_to_own_size_whatever_the_limits() {
    let image = gradient(3, 3);
    assert!(image.can_resize(IconSize::new(3).unwrap()));
}

#[test]
fn can_resize_refuses_what_cannot_be_addressed() {
    let image = SourceImage::from_raw(0, 0, Vec::new()).unwrap();
    assert!(!image.can_resize(IconSize::new(u32::MAX).unwrap()));
    assert!(image.can_resize(IconSize::new(256).unwrap()));
}
