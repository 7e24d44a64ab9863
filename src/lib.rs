//! Camera streaming core: the control protocol of a remote camera session,
//! the transport of frame payloads, and the H.264 NAL-level decode state
//! machine.
pub mod camera;
pub mod json;
pub mod codec;
pub mod packet;
pub mod nal;
pub mod decoder;
pub mod transport;
pub mod session;
pub mod message;
