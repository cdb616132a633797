use robot36_encoder::image::{IMAGE_BYTES, IMAGE_HEIGHT, IMAGE_SIZE, IMAGE_WIDTH};
use robot36_encoder::rgb2yuv::{u_rgb, v_rgb, y_rgb};
use robot36_encoder::{DecodedImage, ImageCreationError, Robot36Image, B, G, R, U, V, Y};

fn gradient_bytes() -> Vec<u8> {
    let mut bytes = Vec::with_capacity(IMAGE_BYTES);
    for y in 0..IMAGE_HEIGHT {
        for x in 0..IMAGE_WIDTH {
            bytes.push((x % 256) as u8);
            bytes.push(y as u8);
            bytes.push(((x + 2 * y) % 256) as u8);
        }
    }
    bytes
}

#[test]
fn picture_dimensions() {
    assert_eq!(IMAGE_WIDTH, 320);
    assert_eq!(IMAGE_HEIGHT, 240);
    assert_eq!(IMAGE_SIZE, 320 * 240);
    assert_eq!(IMAGE_BYTES, 320 * 240 * 3);
    let image = Robot36Image::from_rgb8_bytes(vec![0; IMAGE_BYTES]).unwrap();
    assert_eq!(image.get_width(), 320);
    assert_eq!(image.get_height(), 240);
}

#[test]
fn channel_values_convert_both_ways() {
    for value in 0..=255u8 {
        assert_eq!(u16::from(&R::from(value)), value as u16);
        assert_eq!(u16::from(&G::from(value)), value as u16);
        assert_eq!(u16::from(&B::from(value)), value as u16);
        assert_eq!(u16::from(&Y::from(value)), value as u16);
        assert_eq!(u16::from(&U::from(value)), value as u16);
        assert_eq!(u16::from(&V::from(value)), value as u16);
    }
    let red: R = 7u8.into();
    assert_eq!(red, R::from(7));
    assert_ne!(red, R::from(8));
}

#[test]
fn short_byte_buffer_is_rejected() {
    let result = Robot36Image::from_rgb8_bytes(vec![0; 100]);
    assert!(matches!(result, Err(ImageCreationError::InvalidVectorSize(100, 230400))));
}

#[test]
fn byte_buffer_off_by_one_is_rejected() {
    let short = Robot36Image::from_rgb8_bytes(vec![0; 230_399]);
    assert!(matches!(short, Err(ImageCreationError::InvalidVectorSize(230399, 230400))));
    let long = Robot36Image::from_rgb8_bytes(vec![0; 230_401]);
    assert!(matches!(long, Err(ImageCreationError::InvalidVectorSize(230401, 230400))));
    let empty = Robot36Image::from_rgb8_bytes(Vec::new());
    assert!(matches!(empty, Err(ImageCreationError::InvalidVectorSize(0, 230400))));
}

#[test]
fn wrong_number_of_triples_is_rejected() {
    let mut pixels = Vec::new();
    for _ in 0..100 {
        pixels.push((R::from(0), G::from(0), B::from(0)));
    }
    let result = Robot36Image::from_rgb8_vec(pixels);
    assert!(matches!(result, Err(ImageCreationError::InvalidVectorSize(100, 76800))));
    let result = Robot36Image::from_rgb8_vec(Vec::new());
    assert!(matches!(result, Err(ImageCreationError::InvalidVectorSize(0, 76800))));
}

#[test]
fn errors_compare_by_variant_and_values() {
    assert_eq!(
        ImageCreationError::InvalidVectorSize(1, 2),
        ImageCreationError::InvalidVectorSize(1, 2)
    );
    assert_ne!(ImageCreationError::InvalidWidth(1, 2), ImageCreationError::InvalidHeight(1, 2));
    assert_ne!(ImageCreationError::InvalidWidth(1, 2), ImageCreationError::InvalidWidth(1, 3));
}

#[test]
fn triples_are_stored_row_by_row_and_transformed() {
    let bytes = gradient_bytes();
    let mut pixels = Vec::with_capacity(IMAGE_SIZE);
    for i in 0..IMAGE_SIZE {
        pixels.push((
            R::from(bytes[3 * i]),
            G::from(bytes[3 * i + 1]),
            B::from(bytes[3 * i + 2]),
        ));
    }
    let image = Robot36Image::from_rgb8_vec(pixels).unwrap();
    for y in (0..IMAGE_HEIGHT).step_by(7) {
        for x in (0..IMAGE_WIDTH).step_by(3) {
            let (r, g, b) = ((x % 256) as u8, y as u8, ((x + 2 * y) % 256) as u8);
            assert_eq!(u16::from(image.get_y(x, y)), y_rgb(r, g, b) as u16);
            assert_eq!(u16::from(image.get_u(x, y)), u_rgb(r, g, b) as u16);
            assert_eq!(u16::from(image.get_v(x, y)), v_rgb(r, g, b) as u16);
        }
    }
}

#[test]
fn bytes_are_stored_row_by_row_and_transformed() {
    let image = Robot36Image::from_rgb8_bytes(gradient_bytes()).unwrap();
    for y in 0..IMAGE_HEIGHT {
        for x in [0, 1, 160, 255, 256, 318, 319] {
            let (r, g, b) = ((x % 256) as u8, y as u8, ((x + 2 * y) % 256) as u8);
            assert_eq!(*image.get_y(x, y), Y::from(y_rgb(r, g, b)));
            assert_eq!(*image.get_u(x, y), U::from(u_rgb(r, g, b)));
            assert_eq!(*image.get_v(x, y), V::from(v_rgb(r, g, b)));
        }
    }
}

#[test]
fn corners_of_the_picture() {
    let mut bytes = vec![0u8; IMAGE_BYTES];
    // top right pixel red, bottom left pixel blue
    bytes[3 * 319] = 255;
    bytes[3 * (239 * 320) + 2] = 255;
    let image = Robot36Image::from_rgb8_bytes(bytes).unwrap();
    assert_eq!(u16::from(image.get_y(0, 0)), 16);
    assert_eq!(u16::from(image.get_y(319, 0)), 81);
    assert_eq!(u16::from(image.get_v(319, 0)), 239);
    assert_eq!(u16::from(image.get_y(0, 239)), 40);
    assert_eq!(u16::from(image.get_u(0, 239)), 239);
    assert_eq!(u16::from(image.get_y(319, 239)), 16);
    assert_eq!(u16::from(image.get_y(0, 1)), 16);
}

#[test]
fn decoded_picture_needs_three_bytes_per_pixel() {
    assert!(DecodedImage::new(2, 2, vec![0; 12]).is_some());
    assert!(DecodedImage::new(2, 2, vec![0; 11]).is_none());
    assert!(DecodedImage::new(2, 2, vec![0; 13]).is_none());
    assert!(DecodedImage::new(0, 5, Vec::new()).is_some());
    assert!(DecodedImage::new(u32::MAX, u32::MAX, Vec::new()).is_none());
    let decoded = DecodedImage::new(3, 1, vec![0; 9]).unwrap();
    assert_eq!(decoded.width(), 3);
    assert_eq!(decoded.height(), 1);
}

#[test]
fn narrow_decoded_picture_is_rejected() {
    let decoded = DecodedImage::new(319, 240, vec![0; 319 * 240 * 3]).unwrap();
    let result = Robot36Image::from_image(decoded);
    assert!(matches!(result, Err(ImageCreationError::InvalidWidth(319, 320))));
}

#[test]
fn low_decoded_picture_is_rejected() {
    let decoded = DecodedImage::new(320, 239, vec![0; 320 * 239 * 3]).unwrap();
    let result = Robot36Image::from_image(decoded);
    assert!(matches!(result, Err(ImageCreationError::InvalidHeight(239, 240))));
}

#[test]
fn width_is_looked_at_before_height() {
    let decoded = DecodedImage::new(240, 320, vec![0; IMAGE_BYTES]).unwrap();
    let result = Robot36Image::from_image(decoded);
    assert!(matches!(result, Err(ImageCreationError::InvalidWidth(240, 320))));
}

#[test]
fn decoded_picture_of_the_right_size_is_taken() {
    let decoded = DecodedImage::new(320, 240, gradient_bytes()).unwrap();
    let image = Robot36Image::from_image(decoded).unwrap();
    let plain = Robot36Image::from_rgb8_bytes(gradient_bytes()).unwrap();
    for y in 0..IMAGE_HEIGHT {
        for x in 0..IMAGE_WIDTH {
            assert_eq!(image.get_y(x, y), plain.get_y(x, y));
            assert_eq!(image.get_u(x, y), plain.get_u(x, y));
            assert_eq!(image.get_v(x, y), plain.get_v(x, y));
        }
    }
}
