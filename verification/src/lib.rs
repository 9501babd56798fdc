//! Client-side wire-protocol engine for the NSQ TCP protocol: frames outbound
//! commands, decodes inbound frames, encodes the handshake payload, and codes
//! message identifiers.

pub mod error;
pub mod frames;
pub mod protocol;

pub use error::Error;
pub use error::ErrorKind;
pub use frames::{ErrorFrame, Frame, MessageFrame, ResponseFrame, StringOrByteVec};
pub use protocol::identification::{Identification, IdentificationBuilder};
pub use protocol::message::MessageId;
pub use protocol::reading::{FrameType, ProtocolReader};
