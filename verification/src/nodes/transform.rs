//! The nodes that turn encoded bytes into images and images into tensors.
//!
//! A node does not touch its channels itself. The host takes the next value
//! off the input channel, if there is one, and hands it to `on_update`; what
//! `on_update` returns the host sends on the output channel, and
//! [`emitted`] says what the update comes to.

use crate::decoder::{decode, decodes_to};
use crate::error::NodeError;
use crate::pixel::PixelBuffer;
use crate::tensor::{convert, convertible, ConversionError, Element, Tensor};
use core::marker::PhantomData;
use vstd::prelude::*;

verus! {

/// The result of an update whose value the host has tried to send: a value
/// that the output channel did not take is a channel error.
pub fn emitted(delivered: bool) -> (r: Result<(), NodeError>)
    ensures
        r == (if delivered {
            Ok::<(), NodeError>(())
        } else {
            Err::<(), NodeError>(NodeError::Channel)
        }),
{
    if delivered {
        Ok(())
    } else {
        Err(NodeError::Channel)
    }
}

/// Decodes each buffer of encoded bytes that it receives into an image.
#[derive(Debug, PartialEq, Eq)]
pub struct DecodeImageNode {}

impl DecodeImageNode {
    pub fn new() -> (node: DecodeImageNode) {
        DecodeImageNode {  }
    }

    /// One update. Without input there is nothing to emit, and the update
    /// succeeds. Input is decoded: the update then gives the image that the
    /// bytes decode to, for the host to emit, or fails with the error that
    /// they decode to. What went before has no part in it.
    pub fn on_update(&mut self, input: Option<Vec<u8>>) -> (r: Result<Option<PixelBuffer>, NodeError>)
        ensures
            match input {
                None => r matches Ok(None),
                Some(bytes) => match r {
                    Ok(Some(img)) => decodes_to(bytes@, Ok(img@)),
                    Ok(None) => false,
                    Err(NodeError::Decode(e)) => decodes_to(bytes@, Err(e)),
                    Err(_) => false,
                },
            },
    {
        match input {
            None => Ok(None),
            Some(bytes) => match decode(bytes.as_slice()) {
                Ok(img) => Ok(Some(img)),
                Err(e) => Err(NodeError::Decode(e)),
            },
        }
    }
}

/// Converts each image that it receives into a tensor of `T` with the axes
/// height, width and channels.
#[derive(Debug, PartialEq, Eq)]
pub struct ImageToArray3Node<T> {
    element: PhantomData<T>,
}

impl<T: Element> ImageToArray3Node<T> {
    pub fn new() -> (node: ImageToArray3Node<T>) {
        ImageToArray3Node { element: PhantomData }
    }

    /// Converts one image. The tensor mirrors the image; an image whose
    /// samples `T` does not admit is refused with its layout.
    pub fn handle_image(&mut self, img: PixelBuffer) -> (r: Result<Tensor<T>, NodeError>)
        ensures
            match r {
                Ok(t) => convertible::<T>(img@.layout) && t@.mirrors(img@) && t@.well_formed(),
                Err(e) => !convertible::<T>(img@.layout) && e == NodeError::Conversion(
                    ConversionError::UnsupportedPixelLayout(img@.layout),
                ),
            },
    {
        match convert::<T>(img) {
            Ok(t) => Ok(t),
            Err(e) => Err(NodeError::Conversion(e)),
        }
    }

    /// One update. Without input there is nothing to emit, and the update
    /// succeeds. An image is converted: the update then gives the tensor to
    /// emit, or fails with the conversion error.
    pub fn on_update(&mut self, input: Option<PixelBuffer>) -> (r: Result<Option<Tensor<T>>, NodeError>)
        ensures
            match input {
                None => r matches Ok(None),
                Some(img) => match r {
                    Ok(Some(t)) => convertible::<T>(img@.layout) && t@.mirrors(img@)
                        && t@.well_formed(),
                    Ok(None) => false,
                    Err(e) => !convertible::<T>(img@.layout) && e == NodeError::Conversion(
                        ConversionError::UnsupportedPixelLayout(img@.layout),
                    ),
                },
            },
    {
        match input {
            None => Ok(None),
            Some(img) => match self.handle_image(img) {
                Ok(t) => Ok(Some(t)),
                Err(e) => Err(e),
            },
        }
    }
}

} // verus!
