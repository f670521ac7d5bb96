//! Frames as a capture device delivers them, and their normalization to the
//! canonical form: row-major, red before green before blue, alpha last.

use crate::decoder::{decode, decodes_to};
use crate::error::{CaptureError, NodeError};
use crate::pixel::{
    fills_frame,
    sample_count,
    PixelBuffer,
    PixelData,
    PixelLayout,
    Sample,
    Samples,
};
use vstd::prelude::*;

verus! {

/// The order in which a device stores the 8-bit channels of a pixel.
#[derive(Clone, Copy, Debug, PartialEq, Eq, Structural)]
pub enum ChannelOrder {
    Rgb,
    Bgr,
    Rgba,
    Bgra,
}

impl ChannelOrder {
    /// Number of channels of a pixel.
    pub open spec fn channels_for(self) -> nat {
        match self {
            ChannelOrder::Rgb | ChannelOrder::Bgr => 3,
            ChannelOrder::Rgba | ChannelOrder::Bgra => 4,
        }
    }

    /// The canonical layout of a frame with these channels.
    pub open spec fn layout_for(self) -> PixelLayout {
        match self {
            ChannelOrder::Rgb | ChannelOrder::Bgr => PixelLayout::Rgb8,
            ChannelOrder::Rgba | ChannelOrder::Bgra => PixelLayout::Rgba8,
        }
    }

    /// Whether blue comes first and red third.
    pub open spec fn blue_first(self) -> bool {
        self == ChannelOrder::Bgr || self == ChannelOrder::Bgra
    }

    /// The place within a stored pixel of the canonical channel `c`.
    pub open spec fn source_channel(self, c: int) -> int {
        if self.blue_first() && c < 3 {
            2 - c
        } else {
            c
        }
    }

    pub fn channels(self) -> (n: usize)
        ensures
            n == self.channels_for(),
            n == self.layout_for().channels_for(),
    {
        match self {
            ChannelOrder::Rgb | ChannelOrder::Bgr => 3,
            ChannelOrder::Rgba | ChannelOrder::Bgra => 4,
        }
    }

    pub fn layout(self) -> (l: PixelLayout)
        ensures
            l == self.layout_for(),
    {
        match self {
            ChannelOrder::Rgb | ChannelOrder::Bgr => PixelLayout::Rgb8,
            ChannelOrder::Rgba | ChannelOrder::Bgra => PixelLayout::Rgba8,
        }
    }

    pub fn is_blue_first(self) -> (b: bool)
        ensures
            b == self.blue_first(),
    {
        match self {
            ChannelOrder::Bgr | ChannelOrder::Bgra => true,
            _ => false,
        }
    }
}

/// The canonical sample at position `i` of a frame that is stored in `order`:
/// channel `i % channels` of pixel `i / channels`.
pub open spec fn canonical_sample(order: ChannelOrder, data: Seq<u8>, i: int) -> u8 {
    let n = order.channels_for() as int;
    data[(i / n) * n + order.source_channel(i % n)]
}

/// The samples of a stored frame in canonical order.
pub open spec fn canonical_samples(order: ChannelOrder, data: Seq<u8>) -> Seq<Sample> {
    Seq::new(data.len(), |i: int| Sample::U8(canonical_sample(order, data, i)))
}

/// The image that a raw frame stands for: the frame in canonical order, if it
/// holds exactly `width * height` pixels; else a read error.
pub open spec fn raw_frame(order: ChannelOrder, width: u32, height: u32, data: Seq<u8>) -> Result<
    PixelData,
    NodeError,
> {
    if data.len() == sample_count(width as nat, height as nat, order.channels_for()) {
        Ok(
            PixelData {
                layout: order.layout_for(),
                width: width as nat,
                height: height as nat,
                samples: canonical_samples(order, data),
            },
        )
    } else {
        Err(NodeError::Capture(CaptureError::FrameRead))
    }
}

/// Brings the samples of a stored frame of whole pixels into canonical order.
fn reorder(order: ChannelOrder, data: Vec<u8>) -> (out: Vec<u8>)
    requires
        data@.len() % order.channels_for() == 0,
    ensures
        out@.len() == data@.len(),
        forall|i: int| 0 <= i < out@.len() ==> out@[i] == canonical_sample(order, data@, i),
{
    if !order.is_blue_first() {
        return data;
    }
    let n = order.channels();
    let len = data.len();
    let mut out: Vec<u8> = Vec::with_capacity(len);
    let mut i: usize = 0;
    while i < len
        invariant
            i <= len,
            len == data@.len(),
            len % n == 0,
            out@.len() == i,
            order.blue_first(),
            n == order.channels_for(),
            n == 3 || n == 4,
            forall|j: int| 0 <= j < i ==> out@[j] == canonical_sample(order, data@, j),
        decreases len - i,
    {
        let c = i % n;
        let base = i - c;
        assert(base == (i / n) * n && base + n <= len) by {
            if n == 3 {
                assert(i - i % 3 == (i / 3) * 3 && len % 3 == 0 ==> i - i % 3 + 3 <= len);
            } else {
                assert(i - i % 4 == (i / 4) * 4 && len % 4 == 0 ==> i - i % 4 + 4 <= len);
            }
        }
        let src = if c < 3 {
            base + 2 - c
        } else {
            i
        };
        out.push(data[src]);
        i = i + 1;
    }
    out
}

/// Makes the canonical image of a raw frame.
///
/// The frame is accepted if and only if its buffer holds exactly
/// `width * height` pixels of the channels of `order`. The image then has the
/// size of the frame and its samples in canonical order.
pub fn frame_from_raw(order: ChannelOrder, width: u32, height: u32, data: Vec<u8>) -> (r: Result<
    PixelBuffer,
    NodeError,
>)
    ensures
        match r {
            Ok(img) => raw_frame(order, width, height, data@) == Ok::<PixelData, NodeError>(img@),
            Err(e) => raw_frame(order, width, height, data@) == Err::<PixelData, NodeError>(e),
        },
{
    let n = order.channels();
    if !fills_frame(data.len(), width, height, n) {
        return Err(NodeError::Capture(CaptureError::FrameRead));
    }
    assert(data@.len() % (n as nat) == 0) by (nonlinear_arith)
        requires
            data@.len() == width * height * n,
            n > 0,
    ;
    let samples = Samples::U8(reorder(order, data));
    assert(samples@ =~= canonical_samples(order, data@));
    match PixelBuffer::new(order.layout(), width, height, samples) {
        Ok(img) => Ok(img),
        Err(_) => Err(NodeError::Capture(CaptureError::FrameRead)),
    }
}

/// A frame as a capture device delivers it.
#[derive(Debug, PartialEq, Eq)]
pub enum FramePayload {
    /// An encoded image, such as a JPEG frame of a stream.
    Encoded(Vec<u8>),
    /// Uncompressed 8-bit pixels in the device's channel order.
    Raw { order: ChannelOrder, width: u32, height: u32, data: Vec<u8> },
    /// An image that is canonical already.
    Pixels(PixelBuffer),
}

/// Whether `r` is a result that [`normalize_frame`] may give for the payload.
///
/// For pixels and raw frames there is exactly one such result. For encoded
/// bytes it is a result of decoding them: the image, or the decode error.
pub open spec fn frame_result_ok(payload: FramePayload, r: Result<PixelData, NodeError>) -> bool {
    match payload {
        FramePayload::Pixels(img) => r == Ok::<PixelData, NodeError>(img@),
        FramePayload::Raw { order, width, height, data } => r == raw_frame(
            order,
            width,
            height,
            data@,
        ),
        FramePayload::Encoded(bytes) => match r {
            Ok(img) => decodes_to(bytes@, Ok(img)),
            Err(NodeError::Decode(e)) => decodes_to(bytes@, Err(e)),
            Err(_) => false,
        },
    }
}

/// The result of an operation with the image taken by its view.
pub open spec fn viewed(r: Result<PixelBuffer, NodeError>) -> Result<PixelData, NodeError> {
    match r {
        Ok(img) => Ok(img@),
        Err(e) => Err(e),
    }
}

/// Brings a delivered frame into the canonical form: encoded bytes are
/// decoded, raw pixels are checked against the frame size and reordered, and
/// canonical pixels pass unchanged.
pub fn normalize_frame(payload: FramePayload) -> (r: Result<PixelBuffer, NodeError>)
    ensures
        frame_result_ok(payload, viewed(r)),
{
    match payload {
        FramePayload::Pixels(img) => Ok(img),
        FramePayload::Raw { order, width, height, data } => frame_from_raw(
            order,
            width,
            height,
            data,
        ),
        FramePayload::Encoded(bytes) => match decode(bytes.as_slice()) {
            Ok(img) => Ok(img),
            Err(e) => Err(NodeError::Decode(e)),
        },
    }
}

} // verus!
