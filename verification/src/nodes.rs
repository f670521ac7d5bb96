//! The nodes of the processing graph: camera capture, image decoding and
//! tensor conversion.

pub mod transform;
pub mod webcam;
