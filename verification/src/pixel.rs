//! The canonical image value: a pixel layout tag, the frame size and the samples.
//!
//! A [`PixelBuffer`] is always well formed: its samples are stored row by row,
//! pixel by pixel, channel by channel, there are exactly
//! `width * height * channels` of them, and they have the sample type that the
//! layout implies.

use vstd::prelude::*;

verus! {

/// The type of one sample of an image.
#[derive(Clone, Copy, Debug, PartialEq, Eq, Structural)]
pub enum SampleKind {
    /// Unsigned 8-bit integer.
    U8,
    /// Unsigned 16-bit integer.
    U16,
    /// IEEE 754 binary32 number.
    F32,
}

/// One sample of an image. A binary32 sample is held as its bit pattern.
#[derive(Clone, Copy, Debug, PartialEq, Eq, Structural)]
pub enum Sample {
    U8(u8),
    U16(u16),
    F32(u32),
}

impl Sample {
    pub open spec fn kind_of(self) -> SampleKind {
        match self {
            Sample::U8(_) => SampleKind::U8,
            Sample::U16(_) => SampleKind::U16,
            Sample::F32(_) => SampleKind::F32,
        }
    }

    /// The stored number: the integer itself, or the bit pattern of a binary32.
    pub open spec fn raw(self) -> int {
        match self {
            Sample::U8(v) => v as int,
            Sample::U16(v) => v as int,
            Sample::F32(bits) => bits as int,
        }
    }

    pub fn kind(self) -> (k: SampleKind)
        ensures
            k == self.kind_of(),
    {
        match self {
            Sample::U8(_) => SampleKind::U8,
            Sample::U16(_) => SampleKind::U16,
            Sample::F32(_) => SampleKind::F32,
        }
    }
}

/// The ten pixel layouts an image can have.
#[derive(Clone, Copy, Debug, PartialEq, Eq, Structural)]
pub enum PixelLayout {
    Gray8,
    GrayAlpha8,
    Rgb8,
    Rgba8,
    Gray16,
    GrayAlpha16,
    Rgb16,
    Rgba16,
    Rgb32Float,
    Rgba32Float,
}

impl PixelLayout {
    /// Number of samples that make up one pixel.
    pub open spec fn channels_for(self) -> nat {
        match self {
            PixelLayout::Gray8 | PixelLayout::Gray16 => 1,
            PixelLayout::GrayAlpha8 | PixelLayout::GrayAlpha16 => 2,
            PixelLayout::Rgb8 | PixelLayout::Rgb16 | PixelLayout::Rgb32Float => 3,
            PixelLayout::Rgba8 | PixelLayout::Rgba16 | PixelLayout::Rgba32Float => 4,
        }
    }

    /// The sample type of the layout.
    pub open spec fn sample_kind_of(self) -> SampleKind {
        match self {
            PixelLayout::Gray8
            | PixelLayout::GrayAlpha8
            | PixelLayout::Rgb8
            | PixelLayout::Rgba8 => SampleKind::U8,
            PixelLayout::Gray16
            | PixelLayout::GrayAlpha16
            | PixelLayout::Rgb16
            | PixelLayout::Rgba16 => SampleKind::U16,
            PixelLayout::Rgb32Float | PixelLayout::Rgba32Float => SampleKind::F32,
        }
    }

    /// Number of bytes that one sample of the layout occupies.
    pub open spec fn bytes_per_sample(self) -> nat {
        match self.sample_kind_of() {
            SampleKind::U8 => 1,
            SampleKind::U16 => 2,
            SampleKind::F32 => 4,
        }
    }

    pub fn channels(self) -> (n: usize)
        ensures
            n == self.channels_for(),
            1 <= n <= 4,
    {
        match self {
            PixelLayout::Gray8 | PixelLayout::Gray16 => 1,
            PixelLayout::GrayAlpha8 | PixelLayout::GrayAlpha16 => 2,
            PixelLayout::Rgb8 | PixelLayout::Rgb16 | PixelLayout::Rgb32Float => 3,
            PixelLayout::Rgba8 | PixelLayout::Rgba16 | PixelLayout::Rgba32Float => 4,
        }
    }

    pub fn sample_kind(self) -> (k: SampleKind)
        ensures
            k == self.sample_kind_of(),
    {
        match self {
            PixelLayout::Gray8
            | PixelLayout::GrayAlpha8
            | PixelLayout::Rgb8
            | PixelLayout::Rgba8 => SampleKind::U8,
            PixelLayout::Gray16
            | PixelLayout::GrayAlpha16
            | PixelLayout::Rgb16
            | PixelLayout::Rgba16 => SampleKind::U16,
            PixelLayout::Rgb32Float | PixelLayout::Rgba32Float => SampleKind::F32,
        }
    }

    pub fn sample_bytes(self) -> (n: usize)
        ensures
            n == self.bytes_per_sample(),
    {
        match self.sample_kind() {
            SampleKind::U8 => 1,
            SampleKind::U16 => 2,
            SampleKind::F32 => 4,
        }
    }
}

/// Number of samples of a `width` by `height` image with `channels` samples a pixel.
pub open spec fn sample_count(width: nat, height: nat, channels: nat) -> nat {
    width * height * channels
}

/// Position of a sample in row-major order: rows outermost, then the pixels of
/// a row, then the channels of a pixel.
pub open spec fn flat_index(width: nat, channels: nat, y: int, x: int, c: int) -> int {
    (y * width + x) * channels + c
}

/// Every sample of a `width` by `height` image has a position below the sample count.
pub proof fn lemma_flat_index_in_range(
    width: nat,
    height: nat,
    channels: nat,
    y: int,
    x: int,
    c: int,
)
    requires
        0 <= y < height,
        0 <= x < width,
        0 <= c < channels,
    ensures
        0 <= y * width <= y * width + x <= flat_index(width, channels, y, x, c),
        flat_index(width, channels, y, x, c) < sample_count(width, height, channels),
{
    let w = width as int;
    let h = height as int;
    let n = channels as int;
    assert(0 <= y * w) by (nonlinear_arith)
        requires
            0 <= y,
            0 <= w,
    ;
    assert(y * w + x + 1 <= h * w) by (nonlinear_arith)
        requires
            0 <= y < h,
            0 <= x < w,
    ;
    assert(0 <= (y * w + x) * n) by (nonlinear_arith)
        requires
            0 <= y * w + x,
            0 <= n,
    ;
    assert((y * w + x) * n + n <= (h * w) * n) by (nonlinear_arith)
        requires
            y * w + x + 1 <= h * w,
            0 <= n,
    ;
    assert((h * w) * n == w * h * n) by (nonlinear_arith);
    assert(y * w + x <= (y * w + x) * n) by (nonlinear_arith)
        requires
            0 <= y * w + x,
            1 <= n,
    ;
}

/// The samples of an image, in the sample type of its layout.
#[derive(Clone, Debug, PartialEq, Eq)]
pub enum Samples {
    U8(Vec<u8>),
    U16(Vec<u16>),
    /// Bit patterns of binary32 numbers.
    F32(Vec<u32>),
}

impl View for Samples {
    type V = Seq<Sample>;

    open spec fn view(&self) -> Seq<Sample> {
        match self {
            Samples::U8(v) => Seq::new(v@.len(), |i: int| Sample::U8(v@[i])),
            Samples::U16(v) => Seq::new(v@.len(), |i: int| Sample::U16(v@[i])),
            Samples::F32(v) => Seq::new(v@.len(), |i: int| Sample::F32(v@[i])),
        }
    }
}

impl Samples {
    pub open spec fn kind_of(self) -> SampleKind {
        match self {
            Samples::U8(_) => SampleKind::U8,
            Samples::U16(_) => SampleKind::U16,
            Samples::F32(_) => SampleKind::F32,
        }
    }

    pub fn kind(&self) -> (k: SampleKind)
        ensures
            k == self.kind_of(),
            forall|i: int| 0 <= i < self@.len() ==> (#[trigger] self@[i]).kind_of() == k,
    {
        match self {
            Samples::U8(_) => SampleKind::U8,
            Samples::U16(_) => SampleKind::U16,
            Samples::F32(_) => SampleKind::F32,
        }
    }

    pub fn len(&self) -> (n: usize)
        ensures
            n == self@.len(),
    {
        match self {
            Samples::U8(v) => v.len(),
            Samples::U16(v) => v.len(),
            Samples::F32(v) => v.len(),
        }
    }

    /// The sample at position `i`.
    pub(crate) fn at(&self, i: usize) -> (s: Sample)
        requires
            i < self@.len(),
        ensures
            s == self@[i as int],
    {
        match self {
            Samples::U8(v) => Sample::U8(v[i]),
            Samples::U16(v) => Sample::U16(v[i]),
            Samples::F32(v) => Sample::F32(v[i]),
        }
    }

    /// The sample at position `i`, or `None` past the end.
    pub fn get(&self, i: usize) -> (s: Option<Sample>)
        ensures
            s == (if i < self@.len() {
                Some(self@[i as int])
            } else {
                None
            }),
    {
        if i < self.len() {
            Some(self.at(i))
        } else {
            None
        }
    }
}

/// What a pixel buffer holds, as plain mathematical values.
pub struct PixelData {
    pub layout: PixelLayout,
    pub width: nat,
    pub height: nat,
    pub samples: Seq<Sample>,
}

impl PixelData {
    /// The samples fill the frame exactly and have the layout's sample type.
    pub open spec fn well_formed(self) -> bool {
        &&& self.width <= u32::MAX
        &&& self.height <= u32::MAX
        &&& self.samples.len() == sample_count(
            self.width,
            self.height,
            self.layout.channels_for(),
        )
        &&& forall|i: int|
            0 <= i < self.samples.len() ==> (#[trigger] self.samples[i]).kind_of()
                == self.layout.sample_kind_of()
    }

    /// The sample of channel `c` of the pixel in row `y` and column `x`.
    pub open spec fn sample_at(self, y: int, x: int, c: int) -> Sample {
        self.samples[flat_index(self.width, self.layout.channels_for(), y, x, c)]
    }

    /// Size of the sample buffer in bytes.
    pub open spec fn byte_len(self) -> nat {
        self.samples.len() * self.layout.bytes_per_sample()
    }
}

/// Why samples cannot form an image of the wanted layout and size.
#[derive(Clone, Copy, Debug, PartialEq, Eq, Structural)]
pub enum LayoutError {
    /// The samples do not have the sample type of the layout.
    SampleKindMismatch,
    /// The number of samples is not `width * height * channels`.
    SizeMismatch,
}

/// What [`PixelBuffer::new`] returns for the given parts.
pub open spec fn checked_parts(
    layout: PixelLayout,
    width: u32,
    height: u32,
    samples: Seq<Sample>,
    kind: SampleKind,
) -> Result<PixelData, LayoutError> {
    if kind != layout.sample_kind_of() {
        Err(LayoutError::SampleKindMismatch)
    } else if samples.len() != sample_count(width as nat, height as nat, layout.channels_for()) {
        Err(LayoutError::SizeMismatch)
    } else {
        Ok(PixelData { layout, width: width as nat, height: height as nat, samples })
    }
}

/// Whether `len` is the number of samples of a `width` by `height` image with
/// `channels` samples a pixel.
pub fn fills_frame(len: usize, width: u32, height: u32, channels: usize) -> (b: bool)
    requires
        channels <= 4,
    ensures
        b == (len == sample_count(width as nat, height as nat, channels as nat)),
{
    assert(width * height <= 0xffff_ffff * 0xffff_ffff) by (nonlinear_arith)
        requires
            0 <= width <= 0xffff_ffff,
            0 <= height <= 0xffff_ffff,
    ;
    let pixels: u64 = (width as u64) * (height as u64);
    assert(pixels * channels <= 0xffff_ffff * 0xffff_ffff * 4) by (nonlinear_arith)
        requires
            0 <= pixels <= 0xffff_ffff * 0xffff_ffff,
            0 <= channels <= 4,
    ;
    let wanted: u128 = (pixels as u128) * (channels as u128);
    len as u128 == wanted
}

/// An image: a layout tag, a width, a height and the samples in row-major order.
#[derive(Debug, PartialEq, Eq)]
pub struct PixelBuffer {
    layout: PixelLayout,
    width: u32,
    height: u32,
    samples: Samples,
}

impl View for PixelBuffer {
    type V = PixelData;

    closed spec fn view(&self) -> PixelData {
        PixelData {
            layout: self.layout,
            width: self.width as nat,
            height: self.height as nat,
            samples: self.samples@,
        }
    }
}

impl PixelBuffer {
    #[verifier::type_invariant]
    pub closed spec fn inv(self) -> bool {
        &&& self@.well_formed()
        &&& self.samples.kind_of() == self.layout.sample_kind_of()
    }

    /// The samples of the buffer in their stored form.
    pub closed spec fn stored(self) -> Samples {
        self.samples
    }

    /// Makes an image from its parts, if the samples fit the layout and the size.
    pub fn new(layout: PixelLayout, width: u32, height: u32, samples: Samples) -> (r: Result<
        PixelBuffer,
        LayoutError,
    >)
        ensures
            match r {
                Ok(img) => checked_parts(layout, width, height, samples@, samples.kind_of()) == Ok::<
                    PixelData,
                    LayoutError,
                >(img@) && img.stored() == samples && img@.well_formed(),
                Err(e) => checked_parts(layout, width, height, samples@, samples.kind_of()) == Err::<
                    PixelData,
                    LayoutError,
                >(e),
            },
    {
        let kind = samples.kind();
        if kind != layout.sample_kind() {
            return Err(LayoutError::SampleKindMismatch);
        }
        if !fills_frame(samples.len(), width, height, layout.channels()) {
            return Err(LayoutError::SizeMismatch);
        }
        Ok(PixelBuffer { layout, width, height, samples })
    }

    pub fn layout(&self) -> (l: PixelLayout)
        ensures
            l == self@.layout,
    {
        self.layout
    }

    pub fn width(&self) -> (w: u32)
        ensures
            w == self@.width,
    {
        self.width
    }

    pub fn height(&self) -> (h: u32)
        ensures
            h == self@.height,
    {
        self.height
    }

    /// The samples in row-major order.
    pub fn samples(&self) -> (s: &Samples)
        ensures
            *s == self.stored(),
            s@ == self@.samples,
            s.kind_of() == self@.layout.sample_kind_of(),
            self@.well_formed(),
    {
        proof {
            use_type_invariant(self);
        }
        &self.samples
    }

    /// Takes the image apart.
    pub fn into_samples(self) -> (s: Samples)
        ensures
            s == self.stored(),
            s@ == self@.samples,
            s.kind_of() == self@.layout.sample_kind_of(),
            self@.well_formed(),
    {
        proof {
            use_type_invariant(&self);
        }
        self.samples
    }

    /// Number of samples: `width * height * channels`.
    pub fn sample_len(&self) -> (n: usize)
        ensures
            n == self@.samples.len(),
            n == sample_count(self@.width, self@.height, self@.layout.channels_for()),
            self@.well_formed(),
    {
        proof {
            use_type_invariant(self);
        }
        self.samples.len()
    }

    /// The sample of channel `c` of the pixel in row `y` and column `x`, or
    /// `None` if there is no such place in the image.
    pub fn sample_at(&self, y: u32, x: u32, c: usize) -> (s: Option<Sample>)
        ensures
            s == (if y < self@.height && x < self@.width && c < self@.layout.channels_for() {
                Some(self@.sample_at(y as int, x as int, c as int))
            } else {
                None
            }),
    {
        proof {
            use_type_invariant(self);
        }
        let channels = self.layout.channels();
        if y >= self.height || x >= self.width || c >= channels {
            return None;
        }
        let len = self.samples.len();
        proof {
            lemma_flat_index_in_range(
                self.width as nat,
                self.height as nat,
                channels as nat,
                y as int,
                x as int,
                c as int,
            );
        }
        let pixel: usize = (y as usize) * (self.width as usize) + (x as usize);
        let at: usize = pixel * channels + c;
        if at < len {
            Some(self.samples.at(at))
        } else {
            None
        }
    }
}

/// The buffer of a well-formed image occupies
/// `width * height * channels * bytes_per_sample` bytes.
pub proof fn lemma_byte_len(img: PixelData)
    requires
        img.well_formed(),
    ensures
        img.byte_len() == img.width * img.height * img.layout.channels_for()
            * img.layout.bytes_per_sample(),
{
}

} // verus!
