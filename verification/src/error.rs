//! Error taxonomy: protocol errors of the library's own, plus transport
//! errors carried through unchanged from the underlying stream.

use vstd::prelude::*;

verus! {

/// `std::io::Error` is declared so that transport failures can be carried
/// inside [`Error`]; the library never inspects such a value.
#[verifier::external_type_specification]
#[verifier::external_body]
pub struct ExIoError(std::io::Error);

/// A protocol-level failure. Every protocol error is terminal for the
/// current frame read: framing is length-based, so once a boundary is
/// misread there is no safe resynchronization point.
#[derive(Debug)]
pub enum ErrorKind {
    /// The frame-type code was outside the known set {0, 1, 2}.
    UnknownFrameType(u32),
    /// A message-frame payload was shorter than its fixed 26-byte header.
    InvalidMessageFrame,
    /// A message identifier was not 16 hex digits; carries the offending bytes.
    InvalidMessageId(Vec<u8>),
    /// A frame's length field was too small to cover the frame-type field.
    InvalidFrameLength(u32),
}

/// Any failure surfaced by this library: a protocol error of its own, or a
/// transport error propagated unchanged.
#[derive(Debug)]
pub enum Error {
    NsqError(ErrorKind),
    IoError(std::io::Error),
}

impl Error {
    /// The error for a frame-type code outside {0, 1, 2}.
    pub fn unknown_frame_type_error(frame_type: u32) -> (r: Error)
        ensures
            r matches Error::NsqError(ErrorKind::UnknownFrameType(c)) && c == frame_type,
    {
        Error::NsqError(ErrorKind::UnknownFrameType(frame_type))
    }

    /// The error for a message-frame payload shorter than its fixed header.
    pub fn invalid_message_frame_error() -> (r: Error)
        ensures
            r matches Error::NsqError(ErrorKind::InvalidMessageFrame),
    {
        Error::NsqError(ErrorKind::InvalidMessageFrame)
    }

    /// The error for a malformed message identifier, carrying the offending bytes.
    pub fn invalid_message_id_error(message_id: &[u8]) -> (r: Error)
        ensures
            r matches Error::NsqError(ErrorKind::InvalidMessageId(b)) && b@ == message_id@,
    {
        Error::NsqError(ErrorKind::InvalidMessageId(vstd::slice::slice_to_vec(message_id)))
    }

    /// The error for a frame length field smaller than the frame-type field.
    pub fn invalid_frame_length_error(frame_length: u32) -> (r: Error)
        ensures
            r matches Error::NsqError(ErrorKind::InvalidFrameLength(n)) && n == frame_length,
    {
        Error::NsqError(ErrorKind::InvalidFrameLength(frame_length))
    }
}

} // verus!
