use flowrs_img::binary32::F32Bits;
use flowrs_img::decoder::decode;
use flowrs_img::pixel::{PixelBuffer, PixelLayout, Sample, SampleKind, Samples};
use flowrs_img::tensor::{convert, ConversionError, Element, Tensor};
use std::io::Cursor;

fn floats(t: &Tensor<F32Bits>) -> Vec<f32> {
    t.elements().iter().map(|b| f32::from_bits(b.0)).collect()
}

fn image_of(layout: PixelLayout, width: u32, height: u32) -> PixelBuffer {
    let n = (width * height) as usize * layout.channels();
    let samples = match layout.sample_kind() {
        SampleKind::U8 => Samples::U8((0..n).map(|i| (i * 7 % 256) as u8).collect()),
        SampleKind::U16 => Samples::U16((0..n).map(|i| (i * 4099 % 65536) as u16).collect()),
        SampleKind::F32 => Samples::F32((0..n).map(|i| (i as f32 * 0.25 - 1.0).to_bits()).collect()),
    };
    PixelBuffer::new(layout, width, height, samples).unwrap()
}

fn numbers_of(img: &PixelBuffer) -> Vec<f32> {
    match img.samples() {
        Samples::U8(v) => v.iter().map(|&s| f32::from(s)).collect(),
        Samples::U16(v) => v.iter().map(|&s| f32::from(s)).collect(),
        Samples::F32(v) => v.iter().map(|&s| f32::from_bits(s)).collect(),
    }
}

const ALL_LAYOUTS: [PixelLayout; 10] = [
    PixelLayout::Gray8,
    PixelLayout::GrayAlpha8,
    PixelLayout::Rgb8,
    PixelLayout::Rgba8,
    PixelLayout::Gray16,
    PixelLayout::GrayAlpha16,
    PixelLayout::Rgb16,
    PixelLayout::Rgba16,
    PixelLayout::Rgb32Float,
    PixelLayout::Rgba32Float,
];

#[test]
fn gray8_becomes_a_float_tensor_of_the_same_numbers() {
    let img = PixelBuffer::new(PixelLayout::Gray8, 2, 1, Samples::U8(vec![10, 200])).unwrap();
    let t = convert::<F32Bits>(img).unwrap();
    assert_eq!(t.shape(), (1, 2, 1));
    assert_eq!(floats(&t), vec![10.0, 200.0]);
}

#[test]
fn every_layout_becomes_a_float_tensor_of_its_numbers() {
    for layout in ALL_LAYOUTS {
        let img = image_of(layout, 5, 3);
        let expected = numbers_of(&img);
        let t = convert::<F32Bits>(img).unwrap();
        assert_eq!(t.shape(), (3, 5, layout.channels()));
        assert_eq!(t.len(), 5 * 3 * layout.channels());
        assert_eq!(floats(&t), expected);
    }
}

#[test]
fn every_integer_has_its_float_pattern() {
    for v in 0..=u16::MAX {
        assert_eq!(F32Bits::from_u16(v).0, f32::from(v).to_bits());
    }
    assert_eq!(F32Bits::from_u16(0), F32Bits(0));
    assert_eq!(F32Bits::from_u16(1), F32Bits(0x3f80_0000));
    assert_eq!(F32Bits::from_u16(255), F32Bits(0x437f_0000));
    assert_eq!(F32Bits::from_u16(65535), F32Bits(0x477f_ff00));
}

#[test]
fn float_samples_keep_their_bit_patterns() {
    let bits = vec![f32::NAN.to_bits(), f32::INFINITY.to_bits(), (-0.0f32).to_bits()];
    let img = PixelBuffer::new(PixelLayout::Rgb32Float, 1, 1, Samples::F32(bits.clone())).unwrap();
    let t = convert::<F32Bits>(img).unwrap();
    let got: Vec<u32> = t.into_elements().iter().map(|b| b.0).collect();
    assert_eq!(got, bits);
}

#[test]
fn integer_tensors_hold_the_samples() {
    let img = PixelBuffer::new(PixelLayout::Rgb8, 1, 2, Samples::U8(vec![1, 2, 3, 253, 254, 255]))
        .unwrap();
    let t = convert::<u8>(img).unwrap();
    assert_eq!(t.shape(), (2, 1, 3));
    assert_eq!(t.elements(), &vec![1u8, 2, 3, 253, 254, 255]);

    let img = image_of(PixelLayout::Rgba16, 2, 2);
    let expected: Vec<f32> = numbers_of(&img);
    let as_u16 = convert::<u16>(image_of(PixelLayout::Rgba16, 2, 2)).unwrap();
    let as_u32 = convert::<u32>(image_of(PixelLayout::Rgba16, 2, 2)).unwrap();
    let as_u64 = convert::<u64>(image_of(PixelLayout::Rgba16, 2, 2)).unwrap();
    let as_i32 = convert::<i32>(image_of(PixelLayout::Rgba16, 2, 2)).unwrap();
    let as_i64 = convert::<i64>(img).unwrap();
    for i in 0..16 {
        assert_eq!(as_u16.elements()[i] as f32, expected[i]);
        assert_eq!(as_u32.elements()[i] as f32, expected[i]);
        assert_eq!(as_u64.elements()[i] as f32, expected[i]);
        assert_eq!(as_i32.elements()[i] as f32, expected[i]);
        assert_eq!(as_i64.elements()[i] as f32, expected[i]);
    }
    assert_eq!(as_u32.elements()[1], 4099);
    assert_eq!(as_i64.elements()[15], 15 * 4099);
}

#[test]
fn layout_that_the_element_cannot_hold_is_refused() {
    for layout in [PixelLayout::Gray16, PixelLayout::Rgba16, PixelLayout::Rgb32Float] {
        assert_eq!(
            convert::<u8>(image_of(layout, 1, 1)),
            Err(ConversionError::UnsupportedPixelLayout(layout))
        );
    }
    for layout in [PixelLayout::Rgb32Float, PixelLayout::Rgba32Float] {
        let refused = Some(ConversionError::UnsupportedPixelLayout(layout));
        assert_eq!(convert::<u16>(image_of(layout, 1, 1)).err(), refused);
        assert_eq!(convert::<u32>(image_of(layout, 1, 1)).err(), refused);
        assert_eq!(convert::<u64>(image_of(layout, 1, 1)).err(), refused);
        assert_eq!(convert::<i32>(image_of(layout, 1, 1)).err(), refused);
        assert_eq!(convert::<i64>(image_of(layout, 1, 1)).err(), refused);
    }
}

#[test]
fn elements_say_which_samples_they_accept() {
    assert!(<u8 as Element>::accepts(SampleKind::U8));
    assert!(!<u8 as Element>::accepts(SampleKind::U16));
    assert!(!<u8 as Element>::accepts(SampleKind::F32));
    assert!(<u16 as Element>::accepts(SampleKind::U16));
    assert!(!<i64 as Element>::accepts(SampleKind::F32));
    assert!(<F32Bits as Element>::accepts(SampleKind::F32));
    assert_eq!(<u32 as Element>::widen(Sample::U16(40000)), 40000);
    assert_eq!(<i32 as Element>::widen(Sample::U8(255)), 255);
    assert_eq!(<F32Bits as Element>::widen(Sample::U8(2)), F32Bits(0x4000_0000));
}

#[test]
fn tensor_axes_are_height_width_channels() {
    // Two rows, three columns, three channels: the sample at (y, x, c) is 100 y + 10 x + c.
    let mut data = Vec::new();
    for y in 0..2u8 {
        for x in 0..3u8 {
            for c in 0..3u8 {
                data.push(100 * y + 10 * x + c);
            }
        }
    }
    let img = PixelBuffer::new(PixelLayout::Rgb8, 3, 2, Samples::U8(data)).unwrap();
    let t = convert::<u32>(img).unwrap();
    assert_eq!(t.shape(), (2, 3, 3));
    for y in 0..2 {
        for x in 0..3 {
            for c in 0..3 {
                assert_eq!(t.get(y, x, c), Some(&((100 * y + 10 * x + c) as u32)));
            }
        }
    }
    assert_eq!(t.get(2, 0, 0), None);
    assert_eq!(t.get(0, 3, 0), None);
    assert_eq!(t.get(0, 0, 3), None);
    assert_eq!(t.get(usize::MAX, usize::MAX, usize::MAX), None);
}

#[test]
fn empty_image_becomes_an_empty_tensor() {
    let img = PixelBuffer::new(PixelLayout::Rgb8, 0, 4, Samples::U8(vec![])).unwrap();
    let t = convert::<F32Bits>(img).unwrap();
    assert_eq!(t.shape(), (4, 0, 3));
    assert_eq!(t.len(), 0);
    assert_eq!(t.get(0, 0, 0), None);
}

#[test]
fn decoded_image_becomes_a_float_tensor_of_its_pixels() {
    let pixels: Vec<u8> = vec![255, 0, 0, 0, 255, 0, 0, 0, 255, 12, 34, 56];
    let source = image::RgbImage::from_raw(2, 2, pixels.clone()).unwrap();
    let mut bytes = Vec::new();
    image::DynamicImage::ImageRgb8(source)
        .write_to(&mut Cursor::new(&mut bytes), image::ImageOutputFormat::Png)
        .unwrap();

    let img = decode(&bytes).unwrap();
    assert_eq!(img.layout(), PixelLayout::Rgb8);
    assert_eq!(img.samples(), &Samples::U8(pixels));

    let t = convert::<F32Bits>(img).unwrap();
    assert_eq!(t.shape(), (2, 2, 3));
    assert_eq!(
        floats(&t),
        vec![255.0, 0.0, 0.0, 0.0, 255.0, 0.0, 0.0, 0.0, 255.0, 12.0, 34.0, 56.0]
    );
    assert_eq!(t.get(1, 1, 2).map(|b| f32::from_bits(b.0)), Some(56.0));
}
