//! Camera frames as typed pixel buffers, their decoding from encoded bytes,
//! their conversion into dense tensors, and the lifecycle of a capture node.

pub mod binary32;
pub mod decoder;
pub mod error;
pub mod frame;
pub mod nodes;
pub mod pixel;
pub mod tensor;

pub use self::nodes::transform;
pub use self::nodes::webcam;
