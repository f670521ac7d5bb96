//! Decoding of an encoded image into a [`PixelBuffer`].
//!
//! The image format is found from the bytes themselves and the bytes are
//! decoded by the `image` crate. What it hands back is read out into plain
//! values ([`DecoderOutcome`]), and [`assemble`] turns those into a pixel
//! buffer or a [`DecodeError`].
//!
//! What the decoder makes of given bytes is named, not written out:
//! [`guessed_format`] is the format that the signature gives, and
//! [`decoder_outcome`] is the outcome of decoding. The decoders for JPEG,
//! TIFF, Radiance HDR and OpenEXR compute samples in ways that differ
//! between machines, so for bytes of these formats the outcome has no name
//! and only what holds of every outcome is stated.

use crate::pixel::{checked_parts, PixelBuffer, PixelData, PixelLayout, Sample, SampleKind, Samples};
use image::error::UnsupportedErrorKind;
use image::io::Reader;
use image::ImageError;
use vstd::prelude::*;

verus! {

/// Why encoded bytes did not give an image.
#[derive(Clone, Copy, Debug, PartialEq, Eq, Structural)]
pub enum DecodeError {
    /// No decoder matches the signature of the bytes.
    UnrecognizedFormat,
    /// The format was recognized, but the bytes could not be decoded.
    CorruptData,
    /// The image has a pixel layout that is none of the ten of [`PixelLayout`].
    UnsupportedLayout,
}

/// The kinds of failure that the `image` crate reports.
#[derive(Clone, Copy, Debug, PartialEq, Eq, Structural)]
pub enum ImageFailure {
    Decoding,
    Encoding,
    Parameter,
    Limits,
    Io,
    /// The format is unknown or has no decoder.
    UnsupportedFormat,
    /// The decoder does not support the color type of the image.
    UnsupportedColor,
    /// The decoder does not support some other feature of the image.
    UnsupportedFeature,
}

/// What the signature at the start of the bytes says of their format.
#[derive(Clone, Copy, Debug, PartialEq, Eq, Structural)]
pub enum FormatGuess {
    /// No signature matches.
    Unknown,
    Jpeg,
    Tiff,
    Hdr,
    OpenExr,
    /// One of the other formats.
    Other,
}

impl FormatGuess {
    /// Whether the decoder of the format gives the same outcome for the same
    /// bytes wherever it runs. The JPEG decoder, which TIFF uses too, chooses
    /// its arithmetic by the processor, and the decoders of HDR and OpenEXR
    /// raise numbers to powers with a precision that is not fixed.
    pub open spec fn decodes_alike_everywhere(self) -> bool {
        self == FormatGuess::Other
    }
}

/// An image as the decoder handed it back, read out into plain values.
pub struct DecodedParts {
    /// The layout, or `None` for a color type outside the ten layouts.
    pub layout: Option<PixelLayout>,
    pub width: u32,
    pub height: u32,
    /// The samples, or `None` if the decoder holds none of the layout's sample type.
    pub samples: Option<Samples>,
}

/// What the decoder made of the bytes.
pub enum DecoderOutcome {
    Image(DecodedParts),
    Failure(ImageFailure),
}

/// The parts of a decoded image as mathematical values. The samples come
/// with their sample type.
pub struct PartsData {
    pub layout: Option<PixelLayout>,
    pub width: u32,
    pub height: u32,
    pub samples: Option<(SampleKind, Seq<Sample>)>,
}

/// The outcome of the decoder as mathematical values.
pub enum OutcomeData {
    Image(PartsData),
    Failure(ImageFailure),
}

impl View for DecodedParts {
    type V = PartsData;

    open spec fn view(&self) -> PartsData {
        PartsData {
            layout: self.layout,
            width: self.width,
            height: self.height,
            samples: match self.samples {
                Some(samples) => Some((samples.kind_of(), samples@)),
                None => None,
            },
        }
    }
}

impl View for DecoderOutcome {
    type V = OutcomeData;

    open spec fn view(&self) -> OutcomeData {
        match self {
            DecoderOutcome::Image(parts) => OutcomeData::Image(parts@),
            DecoderOutcome::Failure(failure) => OutcomeData::Failure(*failure),
        }
    }
}

#[verifier::external_type_specification]
#[verifier::external_body]
pub struct ExDynamicImage(image::DynamicImage);

/// The format that `image::guess_format` finds from the signature at the
/// start of the bytes.
pub uninterp spec fn guessed_format(bytes: Seq<u8>) -> FormatGuess;

/// What `image::io::Reader` over the bytes returns from `decode` after
/// `with_guessed_format`, read out into plain values.
pub uninterp spec fn decoder_outcome(bytes: Seq<u8>) -> OutcomeData;

/// The samples that a decoded image holds, in the order of its buffer.
pub uninterp spec fn image_samples(img: image::DynamicImage) -> Seq<Sample>;

/// The layout that stands for the color type of a decoded image, or `None`
/// for a color type outside the ten layouts.
pub uninterp spec fn image_layout(img: image::DynamicImage) -> Option<PixelLayout>;

/// The width of a decoded image.
pub uninterp spec fn image_width(img: image::DynamicImage) -> u32;

/// The height of a decoded image.
pub uninterp spec fn image_height(img: image::DynamicImage) -> u32;

/// Whether the image has a layout with samples of the kind.
pub open spec fn has_samples_of(img: image::DynamicImage, kind: SampleKind) -> bool {
    image_layout(img) matches Some(layout) && layout.sample_kind_of() == kind
}

/// The parts of a decoded image.
pub open spec fn parts_of(img: image::DynamicImage) -> PartsData {
    PartsData {
        layout: image_layout(img),
        width: image_width(img),
        height: image_height(img),
        samples: match image_layout(img) {
            Some(layout) => Some((layout.sample_kind_of(), image_samples(img))),
            None => None,
        },
    }
}

/// The outcome that a result of the decoder stands for.
pub open spec fn outcome_of(r: Result<image::DynamicImage, ImageFailure>) -> OutcomeData {
    match r {
        Ok(img) => OutcomeData::Image(parts_of(img)),
        Err(failure) => OutcomeData::Failure(failure),
    }
}

/// `image::guess_format`: the format whose signature the bytes start with.
/// The result is the named guess; the formats that are told apart are those
/// whose decoders differ between machines. Empty bytes start with no
/// signature, since no signature is empty, so their format is unknown.
#[verifier::external_body]
fn guess(bytes: &[u8]) -> (g: FormatGuess)
    ensures
        g == guessed_format(bytes@),
        bytes@.len() == 0 ==> g == FormatGuess::Unknown,
{
    match image::guess_format(bytes) {
        Ok(image::ImageFormat::Jpeg) => FormatGuess::Jpeg,
        Ok(image::ImageFormat::Tiff) => FormatGuess::Tiff,
        Ok(image::ImageFormat::Hdr) => FormatGuess::Hdr,
        Ok(image::ImageFormat::OpenExr) => FormatGuess::OpenExr,
        Ok(_) => FormatGuess::Other,
        Err(_) => FormatGuess::Unknown,
    }
}

/// `image::io::Reader` over the bytes: `with_guessed_format`, then `decode`,
/// with the variants of `ImageError`, and for `Unsupported` those of
/// `UnsupportedError::kind`, told apart. `with_guessed_format` guesses from
/// the same signatures as `image::guess_format`. For bytes of a format whose
/// decoder gives the same outcome everywhere, the result stands for the named
/// outcome; of other bytes nothing is claimed.
#[verifier::external_body]
fn decode_guessed(bytes: &[u8]) -> (r: Result<image::DynamicImage, ImageFailure>)
    ensures
        guessed_format(bytes@).decodes_alike_everywhere() ==> outcome_of(r) == decoder_outcome(
            bytes@,
        ),
{
    let reader = Reader::new(std::io::Cursor::new(bytes)).with_guessed_format();
    match reader.map_err(ImageError::IoError).and_then(Reader::decode) {
        Ok(img) => Ok(img),
        Err(ImageError::Decoding(_)) => Err(ImageFailure::Decoding),
        Err(ImageError::Encoding(_)) => Err(ImageFailure::Encoding),
        Err(ImageError::Parameter(_)) => Err(ImageFailure::Parameter),
        Err(ImageError::Limits(_)) => Err(ImageFailure::Limits),
        Err(ImageError::IoError(_)) => Err(ImageFailure::Io),
        Err(ImageError::Unsupported(e)) => match e.kind() {
            UnsupportedErrorKind::Format(_) => Err(ImageFailure::UnsupportedFormat),
            UnsupportedErrorKind::Color(_) => Err(ImageFailure::UnsupportedColor),
            _ => Err(ImageFailure::UnsupportedFeature),
        },
    }
}

/// `DynamicImage::color`, with each color type mapped to the layout of the
/// same channels and sample type: the named layout of the image.
#[verifier::external_body]
fn layout_of(img: &image::DynamicImage) -> (l: Option<PixelLayout>)
    ensures
        l == image_layout(*img),
{
    match img.color() {
        image::ColorType::L8 => Some(PixelLayout::Gray8),
        image::ColorType::La8 => Some(PixelLayout::GrayAlpha8),
        image::ColorType::Rgb8 => Some(PixelLayout::Rgb8),
        image::ColorType::Rgba8 => Some(PixelLayout::Rgba8),
        image::ColorType::L16 => Some(PixelLayout::Gray16),
        image::ColorType::La16 => Some(PixelLayout::GrayAlpha16),
        image::ColorType::Rgb16 => Some(PixelLayout::Rgb16),
        image::ColorType::Rgba16 => Some(PixelLayout::Rgba16),
        image::ColorType::Rgb32F => Some(PixelLayout::Rgb32Float),
        image::ColorType::Rgba32F => Some(PixelLayout::Rgba32Float),
        _ => None,
    }
}

/// `DynamicImage::width`: the named width of the image.
#[verifier::external_body]
fn width_of(img: &image::DynamicImage) -> (w: u32)
    ensures
        w == image_width(*img),
{
    img.width()
}

/// `DynamicImage::height`: the named height of the image.
#[verifier::external_body]
fn height_of(img: &image::DynamicImage) -> (h: u32)
    ensures
        h == image_height(*img),
{
    img.height()
}

/// `DynamicImage::as_flat_samples_u8`: a copy of the whole sample buffer. It
/// is there exactly for the four color types with 8-bit samples, and then it
/// holds the named samples of the image.
#[verifier::external_body]
fn samples_u8_of(img: &image::DynamicImage) -> (r: Option<Vec<u8>>)
    ensures
        r is Some <==> has_samples_of(*img, SampleKind::U8),
        r matches Some(v) ==> image_samples(*img) == Samples::U8(v)@,
{
    img.as_flat_samples_u8().map(|flat| flat.as_slice().to_vec())
}

/// `DynamicImage::as_flat_samples_u16`: a copy of the whole sample buffer. It
/// is there exactly for the four color types with 16-bit samples, and then it
/// holds the named samples of the image.
#[verifier::external_body]
fn samples_u16_of(img: &image::DynamicImage) -> (r: Option<Vec<u16>>)
    ensures
        r is Some <==> has_samples_of(*img, SampleKind::U16),
        r matches Some(v) ==> image_samples(*img) == Samples::U16(v)@,
{
    img.as_flat_samples_u16().map(|flat| flat.as_slice().to_vec())
}

/// `DynamicImage::as_flat_samples_f32`: the bit patterns of the whole sample
/// buffer. It is there exactly for the two color types with binary32
/// samples, and then it holds the named samples of the image.
#[verifier::external_body]
fn sample_bits_of(img: &image::DynamicImage) -> (r: Option<Vec<u32>>)
    ensures
        r is Some <==> has_samples_of(*img, SampleKind::F32),
        r matches Some(v) ==> image_samples(*img) == Samples::F32(v)@,
{
    img.as_flat_samples_f32().map(|flat| flat.as_slice().iter().map(|v| v.to_bits()).collect())
}

/// The error that stands for a failure of the decoder: an unknown format is
/// unrecognized, an unsupported color type is an unsupported layout, and all
/// else means that bytes of a recognized format could not be decoded.
pub open spec fn decode_error_of(failure: ImageFailure) -> DecodeError {
    match failure {
        ImageFailure::UnsupportedFormat => DecodeError::UnrecognizedFormat,
        ImageFailure::UnsupportedColor => DecodeError::UnsupportedLayout,
        _ => DecodeError::CorruptData,
    }
}

/// The image that the decoder's outcome stands for, or the error.
///
/// A failure becomes its error. An image becomes a pixel buffer with the same
/// layout, size and samples, provided that its color type is one of the ten
/// layouts and that its samples have the layout's type and fill the frame
/// exactly; an image of another color type is an unsupported layout, and
/// samples that do not fit are corrupt data.
pub open spec fn assembled(outcome: OutcomeData) -> Result<PixelData, DecodeError> {
    match outcome {
        OutcomeData::Failure(failure) => Err(decode_error_of(failure)),
        OutcomeData::Image(parts) => match (parts.layout, parts.samples) {
            (None, _) => Err(DecodeError::UnsupportedLayout),
            (Some(_), None) => Err(DecodeError::CorruptData),
            (Some(layout), Some((kind, samples))) => match checked_parts(
                layout,
                parts.width,
                parts.height,
                samples,
                kind,
            ) {
                Ok(data) => Ok(data),
                Err(_) => Err(DecodeError::CorruptData),
            },
        },
    }
}

/// The result of decoding with the image taken by its view.
pub open spec fn decoded_view(r: Result<PixelBuffer, DecodeError>) -> Result<
    PixelData,
    DecodeError,
> {
    match r {
        Ok(img) => Ok(img@),
        Err(e) => Err(e),
    }
}

/// Whether `r` is what [`decode`] returns for the bytes.
///
/// Bytes that start with no signature, and empty bytes among them, are of an
/// unrecognized format. For bytes of a format whose decoder gives the same
/// outcome everywhere, the result is what [`assembled`] makes of the named
/// outcome of the decoder. For bytes of the other formats the decoder
/// decides, and an image that is returned is well formed.
pub open spec fn decodes_to(bytes: Seq<u8>, r: Result<PixelData, DecodeError>) -> bool {
    &&& bytes.len() == 0 ==> r == Err::<PixelData, DecodeError>(DecodeError::UnrecognizedFormat)
    &&& r matches Ok(img) ==> img.well_formed()
    &&& match guessed_format(bytes) {
        FormatGuess::Unknown => r == Err::<PixelData, DecodeError>(
            DecodeError::UnrecognizedFormat,
        ),
        FormatGuess::Other => r == assembled(decoder_outcome(bytes)),
        _ => true,
    }
}

/// Maps a failure of the decoder to the error that is reported for it.
pub fn classify_failure(failure: ImageFailure) -> (e: DecodeError)
    ensures
        e == decode_error_of(failure),
{
    match failure {
        ImageFailure::UnsupportedFormat => DecodeError::UnrecognizedFormat,
        ImageFailure::UnsupportedColor => DecodeError::UnsupportedLayout,
        _ => DecodeError::CorruptData,
    }
}

/// Makes the pixel buffer that the decoder's outcome stands for.
pub fn assemble(outcome: DecoderOutcome) -> (r: Result<PixelBuffer, DecodeError>)
    ensures
        decoded_view(r) == assembled(outcome@),
        r matches Ok(img) ==> img@.well_formed(),
{
    match outcome {
        DecoderOutcome::Failure(failure) => Err(classify_failure(failure)),
        DecoderOutcome::Image(parts) => {
            let layout = match parts.layout {
                Some(layout) => layout,
                None => {
                    return Err(DecodeError::UnsupportedLayout);
                },
            };
            let samples = match parts.samples {
                Some(samples) => samples,
                None => {
                    return Err(DecodeError::CorruptData);
                },
            };
            match PixelBuffer::new(layout, parts.width, parts.height, samples) {
                Ok(img) => Ok(img),
                Err(_) => Err(DecodeError::CorruptData),
            }
        },
    }
}

/// Reads a decoded image out into plain values: its layout, its size, and the
/// samples of the layout's sample type.
fn read_out(img: &image::DynamicImage) -> (parts: DecodedParts)
    ensures
        parts@ == parts_of(*img),
{
    let layout = layout_of(img);
    let samples = match layout {
        None => None,
        Some(l) => match l.sample_kind() {
            SampleKind::U8 => match samples_u8_of(img) {
                Some(v) => Some(Samples::U8(v)),
                None => None,
            },
            SampleKind::U16 => match samples_u16_of(img) {
                Some(v) => Some(Samples::U16(v)),
                None => None,
            },
            SampleKind::F32 => match sample_bits_of(img) {
                Some(v) => Some(Samples::F32(v)),
                None => None,
            },
        },
    };
    DecodedParts { layout, width: width_of(img), height: height_of(img), samples }
}

/// Decodes a complete encoded image, whose format is found from the bytes.
///
/// Bytes that start with no signature are refused as of an unrecognized
/// format. All other bytes go to the decoder of their format, and the result
/// is what [`assemble`] makes of its outcome.
pub fn decode(bytes: &[u8]) -> (r: Result<PixelBuffer, DecodeError>)
    ensures
        decodes_to(bytes@, decoded_view(r)),
{
    match guess(bytes) {
        FormatGuess::Unknown => Err(DecodeError::UnrecognizedFormat),
        _ => {
            let outcome = match decode_guessed(bytes) {
                Ok(img) => DecoderOutcome::Image(read_out(&img)),
                Err(failure) => DecoderOutcome::Failure(failure),
            };
            assemble(outcome)
        },
    }
}

/// Decoding the same bytes twice gives the same result: the same error, or
/// images with the same layout, size and samples. This holds for all bytes
/// but those with the signature of a JPEG, TIFF, Radiance HDR or OpenEXR
/// file.
pub proof fn lemma_decoding_repeats(
    bytes: Seq<u8>,
    first: Result<PixelData, DecodeError>,
    second: Result<PixelData, DecodeError>,
)
    requires
        decodes_to(bytes, first),
        decodes_to(bytes, second),
        guessed_format(bytes) == FormatGuess::Unknown || guessed_format(
            bytes,
        ).decodes_alike_everywhere(),
    ensures
        first == second,
{
}

/// What is decoded is what the decoder made, in its order: an image of one
/// of the ten layouts whose samples fill its frame comes back with that
/// layout, that size and those samples, and each failure of the decoder
/// comes back as its error.
pub proof fn lemma_decoding_keeps_the_outcome(bytes: Seq<u8>, r: Result<PixelData, DecodeError>)
    requires
        decodes_to(bytes, r),
        guessed_format(bytes).decodes_alike_everywhere(),
    ensures
        match decoder_outcome(bytes) {
            OutcomeData::Failure(failure) => r == Err::<PixelData, DecodeError>(
                decode_error_of(failure),
            ),
            OutcomeData::Image(parts) => match (parts.layout, parts.samples) {
                (None, _) => r == Err::<PixelData, DecodeError>(DecodeError::UnsupportedLayout),
                (Some(_), None) => r == Err::<PixelData, DecodeError>(DecodeError::CorruptData),
                (Some(layout), Some((kind, samples))) => if kind == layout.sample_kind_of()
                    && samples.len() == parts.width * parts.height * layout.channels_for() {
                    r == Ok::<PixelData, DecodeError>(
                        PixelData {
                            layout,
                            width: parts.width as nat,
                            height: parts.height as nat,
                            samples,
                        },
                    )
                } else {
                    r == Err::<PixelData, DecodeError>(DecodeError::CorruptData)
                },
            },
        },
{
}

} // verus!
