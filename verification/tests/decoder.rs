use flowrs_img::decoder::{
    assemble, classify_failure, decode, DecodeError, DecodedParts, DecoderOutcome, ImageFailure,
};
use flowrs_img::pixel::{PixelLayout, Sample, Samples};
use std::io::Cursor;

fn encoded(img: image::DynamicImage, format: image::ImageOutputFormat) -> Vec<u8> {
    let mut bytes = Vec::new();
    img.write_to(&mut Cursor::new(&mut bytes), format).expect("the image can be encoded");
    bytes
}

fn rgb_png() -> Vec<u8> {
    let pixels = vec![10, 20, 30, 40, 50, 60, 70, 80, 90, 100, 110, 120];
    let img = image::RgbImage::from_raw(2, 2, pixels).unwrap();
    encoded(image::DynamicImage::ImageRgb8(img), image::ImageOutputFormat::Png)
}

#[test]
fn decodes_rgb8_with_its_pixels_in_row_major_order() {
    let img = decode(&rgb_png()).expect("a valid image");
    assert_eq!(img.layout(), PixelLayout::Rgb8);
    assert_eq!((img.width(), img.height()), (2, 2));
    assert_eq!(
        img.samples(),
        &Samples::U8(vec![10, 20, 30, 40, 50, 60, 70, 80, 90, 100, 110, 120])
    );
    assert_eq!(img.sample_at(1, 0, 2), Some(Sample::U8(90)));
}

#[test]
fn decoding_twice_gives_the_same_image() {
    let bytes = rgb_png();
    let first = decode(&bytes).unwrap();
    let second = decode(&bytes).unwrap();
    assert_eq!(first.layout(), second.layout());
    assert_eq!((first.width(), first.height()), (second.width(), second.height()));
    assert_eq!(first.samples(), second.samples());
    assert_eq!(first, second);
}

#[test]
fn decodes_each_layout_that_png_can_hold() {
    let gray = image::GrayImage::from_raw(3, 1, vec![1, 2, 3]).unwrap();
    let img = decode(&encoded(gray.into(), image::ImageOutputFormat::Png)).unwrap();
    assert_eq!(img.layout(), PixelLayout::Gray8);
    assert_eq!(img.samples(), &Samples::U8(vec![1, 2, 3]));

    let gray_alpha = image::GrayAlphaImage::from_raw(1, 2, vec![1, 2, 3, 4]).unwrap();
    let img = decode(&encoded(gray_alpha.into(), image::ImageOutputFormat::Png)).unwrap();
    assert_eq!(img.layout(), PixelLayout::GrayAlpha8);
    assert_eq!(img.samples(), &Samples::U8(vec![1, 2, 3, 4]));

    let rgba = image::RgbaImage::from_raw(1, 1, vec![9, 8, 7, 6]).unwrap();
    let img = decode(&encoded(rgba.into(), image::ImageOutputFormat::Png)).unwrap();
    assert_eq!(img.layout(), PixelLayout::Rgba8);
    assert_eq!(img.samples(), &Samples::U8(vec![9, 8, 7, 6]));

    let gray16 = image::ImageBuffer::<image::Luma<u16>, Vec<u16>>::from_raw(2, 1, vec![256, 65535])
        .unwrap();
    let img = decode(&encoded(gray16.into(), image::ImageOutputFormat::Png)).unwrap();
    assert_eq!(img.layout(), PixelLayout::Gray16);
    assert_eq!(img.samples(), &Samples::U16(vec![256, 65535]));

    let gray_alpha16 =
        image::ImageBuffer::<image::LumaA<u16>, Vec<u16>>::from_raw(1, 1, vec![1000, 2000])
            .unwrap();
    let img = decode(&encoded(gray_alpha16.into(), image::ImageOutputFormat::Png)).unwrap();
    assert_eq!(img.layout(), PixelLayout::GrayAlpha16);
    assert_eq!(img.samples(), &Samples::U16(vec![1000, 2000]));

    let rgb16 =
        image::ImageBuffer::<image::Rgb<u16>, Vec<u16>>::from_raw(1, 1, vec![1, 300, 60000])
            .unwrap();
    let img = decode(&encoded(rgb16.into(), image::ImageOutputFormat::Png)).unwrap();
    assert_eq!(img.layout(), PixelLayout::Rgb16);
    assert_eq!(img.samples(), &Samples::U16(vec![1, 300, 60000]));

    let rgba16 =
        image::ImageBuffer::<image::Rgba<u16>, Vec<u16>>::from_raw(1, 1, vec![1, 2, 3, 65535])
            .unwrap();
    let img = decode(&encoded(rgba16.into(), image::ImageOutputFormat::Png)).unwrap();
    assert_eq!(img.layout(), PixelLayout::Rgba16);
    assert_eq!(img.samples(), &Samples::U16(vec![1, 2, 3, 65535]));
}

#[test]
fn decodes_float_samples_as_their_bit_patterns() {
    let values = vec![0.5f32, 1.0, 2.5, 0.0, 100.25, 3.0];
    let rgb = image::Rgb32FImage::from_raw(2, 1, values.clone()).unwrap();
    let img = decode(&encoded(rgb.into(), image::ImageOutputFormat::OpenExr)).unwrap();
    assert_eq!(img.layout(), PixelLayout::Rgb32Float);
    assert_eq!((img.width(), img.height()), (2, 1));
    let bits: Vec<u32> = values.iter().map(|v| v.to_bits()).collect();
    assert_eq!(img.samples(), &Samples::F32(bits));
}

#[test]
fn empty_input_is_an_unrecognized_format() {
    assert_eq!(decode(&[]), Err(DecodeError::UnrecognizedFormat));
}

#[test]
fn noise_is_an_error() {
    let mut state: u32 = 0x2545_f491;
    let mut noise = Vec::new();
    for _ in 0..4096 {
        state ^= state << 13;
        state ^= state >> 17;
        state ^= state << 5;
        noise.push((state >> 24) as u8);
    }
    for len in [1, 2, 7, 64, 1000, 4096] {
        assert!(decode(&noise[..len]).is_err());
    }
    assert_eq!(decode(&[0x13, 0x37, 0xc0, 0xde, 0x42]), Err(DecodeError::UnrecognizedFormat));
}

#[test]
fn damaged_image_is_corrupt_data() {
    let bytes = rgb_png();
    assert_eq!(decode(&bytes[..bytes.len() / 2]), Err(DecodeError::CorruptData));
    assert_eq!(decode(&bytes[..8]), Err(DecodeError::CorruptData));
    let mut jpeg = vec![0xff, 0xd8, 0xff, 0xe0];
    jpeg.extend_from_slice(&[0; 32]);
    assert_eq!(decode(&jpeg), Err(DecodeError::CorruptData));
}

#[test]
fn each_failure_of_the_decoder_has_its_error() {
    let cases = [
        (ImageFailure::UnsupportedFormat, DecodeError::UnrecognizedFormat),
        (ImageFailure::UnsupportedColor, DecodeError::UnsupportedLayout),
        (ImageFailure::UnsupportedFeature, DecodeError::CorruptData),
        (ImageFailure::Decoding, DecodeError::CorruptData),
        (ImageFailure::Encoding, DecodeError::CorruptData),
        (ImageFailure::Parameter, DecodeError::CorruptData),
        (ImageFailure::Limits, DecodeError::CorruptData),
        (ImageFailure::Io, DecodeError::CorruptData),
    ];
    for (failure, error) in cases {
        assert_eq!(classify_failure(failure), error);
        assert_eq!(assemble(DecoderOutcome::Failure(failure)), Err(error));
    }
}

#[test]
fn assembles_what_the_decoder_hands_back() {
    let parts = DecodedParts {
        layout: Some(PixelLayout::GrayAlpha8),
        width: 1,
        height: 2,
        samples: Some(Samples::U8(vec![5, 6, 7, 8])),
    };
    let img = assemble(DecoderOutcome::Image(parts)).unwrap();
    assert_eq!(img.layout(), PixelLayout::GrayAlpha8);
    assert_eq!((img.width(), img.height()), (1, 2));
    assert_eq!(img.samples(), &Samples::U8(vec![5, 6, 7, 8]));
}

#[test]
fn image_of_another_color_type_is_an_unsupported_layout() {
    let parts = DecodedParts { layout: None, width: 1, height: 1, samples: None };
    assert_eq!(assemble(DecoderOutcome::Image(parts)), Err(DecodeError::UnsupportedLayout));
    let parts =
        DecodedParts { layout: None, width: 1, height: 1, samples: Some(Samples::U8(vec![1])) };
    assert_eq!(assemble(DecoderOutcome::Image(parts)), Err(DecodeError::UnsupportedLayout));
}

#[test]
fn samples_that_do_not_fit_are_corrupt_data() {
    let missing =
        DecodedParts { layout: Some(PixelLayout::Rgb8), width: 1, height: 1, samples: None };
    assert_eq!(assemble(DecoderOutcome::Image(missing)), Err(DecodeError::CorruptData));
    let short = DecodedParts {
        layout: Some(PixelLayout::Rgb8),
        width: 1,
        height: 1,
        samples: Some(Samples::U8(vec![1, 2])),
    };
    assert_eq!(assemble(DecoderOutcome::Image(short)), Err(DecodeError::CorruptData));
    let other_type = DecodedParts {
        layout: Some(PixelLayout::Rgb8),
        width: 1,
        height: 1,
        samples: Some(Samples::U16(vec![1, 2, 3])),
    };
    assert_eq!(assemble(DecoderOutcome::Image(other_type)), Err(DecodeError::CorruptData));
}

#[test]
fn signature_decides_what_is_unrecognized_and_what_is_corrupt() {
    assert_eq!(decode(&[0xde, 0xad, 0xbe, 0xef]), Err(DecodeError::UnrecognizedFormat));
    // Each of these starts with a signature and holds no image.
    let png: &[u8] = &[0x89, 0x50, 0x4e, 0x47, 0x0d, 0x0a, 0x1a, 0x0a];
    let gif: &[u8] = b"GIF89a";
    let bmp: &[u8] = b"BM";
    let tiff: &[u8] = b"II*\0";
    let hdr: &[u8] = b"#?RADIANCE";
    let jpeg: &[u8] = &[0xff, 0xd8, 0xff];
    for bytes in [png, gif, bmp, tiff, hdr, jpeg] {
        assert_eq!(decode(bytes), Err(DecodeError::CorruptData));
    }
}

#[test]
fn decodes_lossy_formats_too() {
    let pixels: Vec<u8> = (0..8 * 8 * 3).map(|i| (i % 256) as u8).collect();
    let source = image::RgbImage::from_raw(8, 8, pixels).unwrap();
    let bytes = encoded(source.into(), image::ImageOutputFormat::Jpeg(90));
    let img = decode(&bytes).unwrap();
    assert_eq!(img.layout(), PixelLayout::Rgb8);
    assert_eq!((img.width(), img.height()), (8, 8));
    assert_eq!(img.sample_len(), 8 * 8 * 3);
    // On one machine the decoder repeats itself.
    assert_eq!(decode(&bytes).unwrap(), img);
}
