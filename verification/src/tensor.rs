//! Conversion of a [`PixelBuffer`] into a dense tensor with the axes height,
//! width and channels.
//!
//! The elements of the tensor are of a type that the caller chooses. Each
//! element holds exactly the number of the sample at the same place of the
//! image: samples are widened, never rescaled or truncated. A layout whose
//! samples the element type cannot hold without loss is refused.

use crate::pixel::{
    flat_index,
    lemma_flat_index_in_range,
    sample_count,
    PixelBuffer,
    PixelData,
    PixelLayout,
    Sample,
    SampleKind,
};
use vstd::prelude::*;

verus! {

/// Why an image cannot become a tensor of the wanted element type.
#[derive(Clone, Copy, Debug, PartialEq, Eq, Structural)]
pub enum ConversionError {
    /// The element type cannot hold the samples of this layout without loss.
    UnsupportedPixelLayout(PixelLayout),
}

/// A numeric type that samples can be widened into.
pub trait Element: Sized {
    /// Whether every sample of the kind has an element that holds its number.
    spec fn admits(kind: SampleKind) -> bool;

    /// Whether the element holds exactly the number of the sample.
    spec fn holds(self, s: Sample) -> bool;

    fn accepts(kind: SampleKind) -> (b: bool)
        ensures
            b == Self::admits(kind),
    ;

    /// The element that holds the number of the sample.
    fn widen(s: Sample) -> (e: Self)
        requires
            Self::admits(s.kind_of()),
        ensures
            e.holds(s),
    ;

    /// At most one element holds the number of a sample.
    proof fn lemma_holds_one(a: Self, b: Self, s: Sample)
        requires
            a.holds(s),
            b.holds(s),
        ensures
            a == b,
    ;
}

/// Whether the sample is an integer with the value `n`.
pub open spec fn is_integer(s: Sample, n: int) -> bool {
    s.kind_of() != SampleKind::F32 && s.raw() == n
}

impl Element for u8 {
    open spec fn admits(kind: SampleKind) -> bool {
        kind == SampleKind::U8
    }

    open spec fn holds(self, s: Sample) -> bool {
        is_integer(s, self as int)
    }

    fn accepts(kind: SampleKind) -> (b: bool) {
        match kind {
            SampleKind::U8 => true,
            _ => false,
        }
    }

    fn widen(s: Sample) -> (e: u8) {
        match s {
            Sample::U8(v) => v,
            _ => 0,
        }
    }

    proof fn lemma_holds_one(a: u8, b: u8, s: Sample) {
    }
}

impl Element for u16 {
    open spec fn admits(kind: SampleKind) -> bool {
        kind != SampleKind::F32
    }

    open spec fn holds(self, s: Sample) -> bool {
        is_integer(s, self as int)
    }

    fn accepts(kind: SampleKind) -> (b: bool) {
        match kind {
            SampleKind::F32 => false,
            _ => true,
        }
    }

    fn widen(s: Sample) -> (e: u16) {
        match s {
            Sample::U8(v) => v as u16,
            Sample::U16(v) => v,
            Sample::F32(_) => 0,
        }
    }

    proof fn lemma_holds_one(a: u16, b: u16, s: Sample) {
    }
}

impl Element for u32 {
    open spec fn admits(kind: SampleKind) -> bool {
        kind != SampleKind::F32
    }

    open spec fn holds(self, s: Sample) -> bool {
        is_integer(s, self as int)
    }

    fn accepts(kind: SampleKind) -> (b: bool) {
        match kind {
            SampleKind::F32 => false,
            _ => true,
        }
    }

    fn widen(s: Sample) -> (e: u32) {
        match s {
            Sample::U8(v) => v as u32,
            Sample::U16(v) => v as u32,
            Sample::F32(_) => 0,
        }
    }

    proof fn lemma_holds_one(a: u32, b: u32, s: Sample) {
    }
}

impl Element for u64 {
    open spec fn admits(kind: SampleKind) -> bool {
        kind != SampleKind::F32
    }

    open spec fn holds(self, s: Sample) -> bool {
        is_integer(s, self as int)
    }

    fn accepts(kind: SampleKind) -> (b: bool) {
        match kind {
            SampleKind::F32 => false,
            _ => true,
        }
    }

    fn widen(s: Sample) -> (e: u64) {
        match s {
            Sample::U8(v) => v as u64,
            Sample::U16(v) => v as u64,
            Sample::F32(_) => 0,
        }
    }

    proof fn lemma_holds_one(a: u64, b: u64, s: Sample) {
    }
}

impl Element for i32 {
    open spec fn admits(kind: SampleKind) -> bool {
        kind != SampleKind::F32
    }

    open spec fn holds(self, s: Sample) -> bool {
        is_integer(s, self as int)
    }

    fn accepts(kind: SampleKind) -> (b: bool) {
        match kind {
            SampleKind::F32 => false,
            _ => true,
        }
    }

    fn widen(s: Sample) -> (e: i32) {
        match s {
            Sample::U8(v) => v as i32,
            Sample::U16(v) => v as i32,
            Sample::F32(_) => 0,
        }
    }

    proof fn lemma_holds_one(a: i32, b: i32, s: Sample) {
    }
}

impl Element for i64 {
    open spec fn admits(kind: SampleKind) -> bool {
        kind != SampleKind::F32
    }

    open spec fn holds(self, s: Sample) -> bool {
        is_integer(s, self as int)
    }

    fn accepts(kind: SampleKind) -> (b: bool) {
        match kind {
            SampleKind::F32 => false,
            _ => true,
        }
    }

    fn widen(s: Sample) -> (e: i64) {
        match s {
            Sample::U8(v) => v as i64,
            Sample::U16(v) => v as i64,
            Sample::F32(_) => 0,
        }
    }

    proof fn lemma_holds_one(a: i64, b: i64, s: Sample) {
    }
}

/// What a tensor holds, as plain mathematical values.
pub struct TensorData<T> {
    pub height: nat,
    pub width: nat,
    pub channels: nat,
    /// The elements in row-major order: rows, then columns, then channels.
    pub elements: Seq<T>,
}

impl<T> TensorData<T> {
    /// There is one element for each channel of each pixel.
    pub open spec fn well_formed(self) -> bool {
        self.elements.len() == sample_count(self.width, self.height, self.channels)
    }

    /// The element on row `y`, column `x` and channel `c`.
    pub open spec fn at(self, y: int, x: int, c: int) -> T {
        self.elements[flat_index(self.width, self.channels, y, x, c)]
    }

    /// The tensor has the shape of the image, and each element holds the
    /// number of the sample at the same position of the buffer.
    pub open spec fn mirrors(self, img: PixelData) -> bool where T: Element {
        &&& self.height == img.height
        &&& self.width == img.width
        &&& self.channels == img.layout.channels_for()
        &&& self.elements.len() == img.samples.len()
        &&& forall|i: int|
            0 <= i < self.elements.len() ==> (#[trigger] self.elements[i]).holds(img.samples[i])
    }
}

/// A dense array with the axes height, width and channels.
#[derive(Debug, PartialEq, Eq)]
pub struct Tensor<T> {
    height: usize,
    width: usize,
    channels: usize,
    elements: Vec<T>,
}

impl<T> View for Tensor<T> {
    type V = TensorData<T>;

    closed spec fn view(&self) -> TensorData<T> {
        TensorData {
            height: self.height as nat,
            width: self.width as nat,
            channels: self.channels as nat,
            elements: self.elements@,
        }
    }
}

impl<T> Tensor<T> {
    #[verifier::type_invariant]
    pub closed spec fn inv(self) -> bool {
        self@.well_formed()
    }

    /// Length of the three axes: height, width, channels.
    pub fn shape(&self) -> (s: (usize, usize, usize))
        ensures
            s.0 == self@.height,
            s.1 == self@.width,
            s.2 == self@.channels,
            self@.well_formed(),
    {
        proof {
            use_type_invariant(self);
        }
        (self.height, self.width, self.channels)
    }

    /// Number of elements: `height * width * channels`.
    pub fn len(&self) -> (n: usize)
        ensures
            n == self@.elements.len(),
            n == sample_count(self@.width, self@.height, self@.channels),
    {
        proof {
            use_type_invariant(self);
        }
        self.elements.len()
    }

    /// The elements in row-major order.
    pub fn elements(&self) -> (s: &Vec<T>)
        ensures
            s@ == self@.elements,
            self@.well_formed(),
    {
        proof {
            use_type_invariant(self);
        }
        &self.elements
    }

    /// Takes the tensor apart into its elements in row-major order.
    pub fn into_elements(self) -> (v: Vec<T>)
        ensures
            v@ == self@.elements,
            self@.well_formed(),
    {
        proof {
            use_type_invariant(&self);
        }
        self.elements
    }

    /// The element on row `y`, column `x` and channel `c`, or `None` if the
    /// tensor has no such place.
    pub fn get(&self, y: usize, x: usize, c: usize) -> (e: Option<&T>)
        ensures
            match e {
                Some(e) => y < self@.height && x < self@.width && c < self@.channels && *e
                    == self@.at(y as int, x as int, c as int),
                None => !(y < self@.height && x < self@.width && c < self@.channels),
            },
    {
        proof {
            use_type_invariant(self);
        }
        if y >= self.height || x >= self.width || c >= self.channels {
            return None;
        }
        let len = self.elements.len();
        proof {
            lemma_flat_index_in_range(
                self.width as nat,
                self.height as nat,
                self.channels as nat,
                y as int,
                x as int,
                c as int,
            );
        }
        let pixel: usize = y * self.width + x;
        let at: usize = pixel * self.channels + c;
        if at < len {
            Some(&self.elements[at])
        } else {
            None
        }
    }
}

/// Whether an image of the layout can become a tensor of `T`.
pub open spec fn convertible<T: Element>(layout: PixelLayout) -> bool {
    T::admits(layout.sample_kind_of())
}

/// Converts an image into a tensor of `T` with the axes height, width and
/// channels.
///
/// The tensor has the height and width of the image and as many channels as
/// its layout, and each element holds exactly the number of the sample at the
/// same position of the buffer. The conversion succeeds if and only if `T`
/// admits the sample type of the layout; otherwise the layout is refused.
pub fn convert<T: Element>(img: PixelBuffer) -> (r: Result<Tensor<T>, ConversionError>)
    ensures
        match r {
            Ok(t) => convertible::<T>(img@.layout) && t@.mirrors(img@) && t@.well_formed(),
            Err(e) => !convertible::<T>(img@.layout) && e == ConversionError::UnsupportedPixelLayout(
                img@.layout,
            ),
        },
{
    let layout = img.layout();
    if !T::accepts(layout.sample_kind()) {
        return Err(ConversionError::UnsupportedPixelLayout(layout));
    }
    let height = img.height() as usize;
    let width = img.width() as usize;
    let channels = layout.channels();
    let samples = img.into_samples();
    let n = samples.len();
    let mut elements: Vec<T> = Vec::with_capacity(n);
    let mut i: usize = 0;
    while i < n
        invariant
            i <= n,
            n == samples@.len(),
            elements@.len() == i,
            T::admits(samples.kind_of()),
            forall|j: int| 0 <= j < samples@.len() ==> (#[trigger] samples@[j]).kind_of() == samples.kind_of(),
            forall|j: int| 0 <= j < i ==> (#[trigger] elements@[j]).holds(samples@[j]),
        decreases n - i,
    {
        elements.push(T::widen(samples.at(i)));
        i = i + 1;
    }
    Ok(Tensor { height, width, channels, elements })
}

/// The axes of a converted tensor mirror the image: the element on row `y`,
/// column `x` and channel `c` holds the number of the sample of channel `c` of
/// the pixel in row `y` and column `x`.
pub proof fn lemma_tensor_mirrors_pixels<T: Element>(
    t: TensorData<T>,
    img: PixelData,
    y: int,
    x: int,
    c: int,
)
    requires
        img.well_formed(),
        t.mirrors(img),
        0 <= y < img.height,
        0 <= x < img.width,
        0 <= c < img.layout.channels_for(),
    ensures
        t.at(y, x, c).holds(img.sample_at(y, x, c)),
{
    lemma_flat_index_in_range(img.width, img.height, img.layout.channels_for(), y, x, c);
}

/// A converted tensor has `width * height * channels` elements.
pub proof fn lemma_tensor_element_count<T: Element>(t: TensorData<T>, img: PixelData)
    requires
        img.well_formed(),
        t.mirrors(img),
    ensures
        t.elements.len() == img.width * img.height * img.layout.channels_for(),
{
}

/// Two tensors that mirror the same image are equal: the conversion has one result.
pub proof fn lemma_conversion_has_one_result<T: Element>(
    a: TensorData<T>,
    b: TensorData<T>,
    img: PixelData,
)
    requires
        a.mirrors(img),
        b.mirrors(img),
    ensures
        a == b,
{
    assert forall|i: int| 0 <= i < a.elements.len() implies a.elements[i] == b.elements[i] by {
        T::lemma_holds_one(a.elements[i], b.elements[i], img.samples[i]);
    }
    assert(a.elements =~= b.elements);
}

} // verus!
