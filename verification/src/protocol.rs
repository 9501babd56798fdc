//! The wire protocol proper: big-endian integer coding, the message
//! identifier codec, the handshake descriptor, and the frame reader and
//! writer.

pub mod identification;
pub mod message;
pub mod reading;
pub mod wire;
pub mod writing;
