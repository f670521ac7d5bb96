use flowrs_img::pixel::{
    fills_frame, LayoutError, PixelBuffer, PixelLayout, Sample, SampleKind, Samples,
};

const ALL_LAYOUTS: [PixelLayout; 10] = [
    PixelLayout::Gray8,
    PixelLayout::GrayAlpha8,
    PixelLayout::Rgb8,
    PixelLayout::Rgba8,
    PixelLayout::Gray16,
    PixelLayout::GrayAlpha16,
    PixelLayout::Rgb16,
    PixelLayout::Rgba16,
    PixelLayout::Rgb32Float,
    PixelLayout::Rgba32Float,
];

#[test]
fn layouts_have_their_channels_and_sample_sizes() {
    let channels = [1, 2, 3, 4, 1, 2, 3, 4, 3, 4];
    let bytes = [1, 1, 1, 1, 2, 2, 2, 2, 4, 4];
    for (i, layout) in ALL_LAYOUTS.iter().enumerate() {
        assert_eq!(layout.channels(), channels[i]);
        assert_eq!(layout.sample_bytes(), bytes[i]);
    }
    assert_eq!(PixelLayout::Rgb8.sample_kind(), SampleKind::U8);
    assert_eq!(PixelLayout::GrayAlpha16.sample_kind(), SampleKind::U16);
    assert_eq!(PixelLayout::Rgba32Float.sample_kind(), SampleKind::F32);
}

#[test]
fn buffer_keeps_its_parts() {
    let img = PixelBuffer::new(PixelLayout::Rgb8, 2, 1, Samples::U8(vec![1, 2, 3, 4, 5, 6]))
        .expect("six samples fill two pixels of three channels");
    assert_eq!(img.layout(), PixelLayout::Rgb8);
    assert_eq!(img.width(), 2);
    assert_eq!(img.height(), 1);
    assert_eq!(img.sample_len(), 6);
    assert_eq!(img.samples(), &Samples::U8(vec![1, 2, 3, 4, 5, 6]));
    assert_eq!(img.into_samples(), Samples::U8(vec![1, 2, 3, 4, 5, 6]));
}

#[test]
fn buffer_length_is_width_height_channels_bytes() {
    for layout in ALL_LAYOUTS {
        let n = 3 * 2 * layout.channels();
        let samples = match layout.sample_kind() {
            SampleKind::U8 => Samples::U8(vec![0; n]),
            SampleKind::U16 => Samples::U16(vec![0; n]),
            SampleKind::F32 => Samples::F32(vec![0; n]),
        };
        let img = PixelBuffer::new(layout, 3, 2, samples).expect("the samples fill the frame");
        assert_eq!(img.sample_len(), n);
        assert_eq!(
            img.sample_len() * layout.sample_bytes(),
            3 * 2 * layout.channels() * layout.sample_bytes()
        );
    }
}

#[test]
fn buffer_refuses_wrong_number_of_samples() {
    let short = PixelBuffer::new(PixelLayout::Rgb8, 2, 1, Samples::U8(vec![1, 2, 3, 4, 5]));
    assert_eq!(short, Err(LayoutError::SizeMismatch));
    let long = PixelBuffer::new(PixelLayout::Gray8, 2, 1, Samples::U8(vec![1, 2, 3]));
    assert_eq!(long, Err(LayoutError::SizeMismatch));
}

#[test]
fn buffer_refuses_samples_of_another_type() {
    let r = PixelBuffer::new(PixelLayout::Gray16, 1, 1, Samples::U8(vec![1]));
    assert_eq!(r, Err(LayoutError::SampleKindMismatch));
    let r = PixelBuffer::new(PixelLayout::Rgb8, 1, 1, Samples::F32(vec![0, 0, 0]));
    assert_eq!(r, Err(LayoutError::SampleKindMismatch));
}

#[test]
fn empty_image_is_an_image() {
    let img = PixelBuffer::new(PixelLayout::Rgba16, 0, 7, Samples::U16(vec![])).unwrap();
    assert_eq!(img.sample_len(), 0);
    assert_eq!(img.sample_at(0, 0, 0), None);
}

#[test]
fn largest_frame_size_does_not_overflow() {
    let r = PixelBuffer::new(PixelLayout::Rgba8, u32::MAX, u32::MAX, Samples::U8(vec![]));
    assert_eq!(r, Err(LayoutError::SizeMismatch));
    assert!(!fills_frame(0, u32::MAX, u32::MAX, 4));
    assert!(fills_frame(0, u32::MAX, 0, 4));
    assert!(fills_frame(24, 4, 2, 3));
    assert!(!fills_frame(23, 4, 2, 3));
}

#[test]
fn samples_are_addressed_row_by_row() {
    // Two rows of three pixels with two channels each.
    let data: Vec<u16> = (0..12).map(|v| 100 + v).collect();
    let img = PixelBuffer::new(PixelLayout::GrayAlpha16, 3, 2, Samples::U16(data)).unwrap();
    assert_eq!(img.sample_at(0, 0, 0), Some(Sample::U16(100)));
    assert_eq!(img.sample_at(0, 0, 1), Some(Sample::U16(101)));
    assert_eq!(img.sample_at(0, 2, 1), Some(Sample::U16(105)));
    assert_eq!(img.sample_at(1, 0, 0), Some(Sample::U16(106)));
    assert_eq!(img.sample_at(1, 2, 1), Some(Sample::U16(111)));
    assert_eq!(img.sample_at(2, 0, 0), None);
    assert_eq!(img.sample_at(0, 3, 0), None);
    assert_eq!(img.sample_at(0, 0, 2), None);
}

#[test]
fn samples_know_their_kind_and_length() {
    let s = Samples::F32(vec![1, 2, 3]);
    assert_eq!(s.kind(), SampleKind::F32);
    assert_eq!(s.len(), 3);
    assert_eq!(s.get(2), Some(Sample::F32(3)));
    assert_eq!(s.get(3), None);
    assert_eq!(Sample::U8(4).kind(), SampleKind::U8);
}
