//! The typed frame taxonomy: raw `(type, payload)` tuples interpreted as
//! response, error, or message frames.

use vstd::prelude::*;
use vstd::utf8::{decode_utf8, encode_utf8, valid_utf8};

use crate::error::{Error, ErrorKind};
use crate::protocol::message::{
    hex16_value, hex_chunk_ok, valid_message_id_hex, MessageId,
};
use crate::protocol::reading::FrameType;
use crate::protocol::wire::{be16_value, be64_value, bytes_eq, read_be16, read_be64};

verus! {

/// A payload that is UTF-8 text when possible, and otherwise the raw bytes,
/// kept losslessly either way.
#[derive(Clone, Debug, PartialEq)]
pub enum StringOrByteVec {
    Text(String),
    Bytes(Vec<u8>),
}

impl StringOrByteVec {
    /// The exact payload bytes the value stands for.
    pub open spec fn bytes(&self) -> Seq<u8> {
        match self {
            StringOrByteVec::Text(s) => encode_utf8(s@),
            StringOrByteVec::Bytes(v) => v@,
        }
    }

    /// The raw fallback is taken only when the bytes are not UTF-8.
    pub open spec fn wf(&self) -> bool {
        match self {
            StringOrByteVec::Text(_) => true,
            StringOrByteVec::Bytes(v) => !valid_utf8(v@),
        }
    }

    /// Builds the payload by attempting UTF-8 decoding and falling back
    /// losslessly to the raw bytes.
    pub fn from_vec(v: Vec<u8>) -> (r: StringOrByteVec)
        ensures
            r.wf(),
            r.bytes() == v@,
            valid_utf8(v@) ==> r is Text,
            !valid_utf8(v@) ==> r is Bytes,
    {
        let ghost vv = v@;
        match utf8_decode(v) {
            Ok(s) => {
                proof {
                    vstd::utf8::decode_utf8_encode_utf8(vv);
                }
                StringOrByteVec::Text(s)
            },
            Err(b) => StringOrByteVec::Bytes(b),
        }
    }

    /// The payload bytes back, exactly as they were received.
    pub fn into_bytes(self) -> (r: Vec<u8>)
        ensures
            r@ == self.bytes(),
    {
        match self {
            StringOrByteVec::Text(s) => vstd::string::StrSliceExecFns::as_bytes_vec(s.as_str()),
            StringOrByteVec::Bytes(v) => v,
        }
    }
}

/// Relies on `String::from_utf8`: it returns the decoded string exactly when
/// the bytes are valid UTF-8, and otherwise an error whose
/// `FromUtf8Error::into_bytes` hands back the original bytes unchanged.
#[verifier::external_body]
fn utf8_decode(v: Vec<u8>) -> (r: Result<String, Vec<u8>>)
    ensures
        r matches Ok(s) ==> valid_utf8(v@) && s@ == decode_utf8(v@),
        r matches Err(b) ==> !valid_utf8(v@) && b@ == v@,
{
    match String::from_utf8(v) {
        Ok(s) => Ok(s),
        Err(e) => Err(e.into_bytes()),
    }
}

/// The literal response payload `"_heartbeat_"`.
pub open spec fn heartbeat_bytes() -> Seq<u8> {
    seq![
        '_' as u8,
        'h' as u8,
        'e' as u8,
        'a' as u8,
        'r' as u8,
        't' as u8,
        'b' as u8,
        'e' as u8,
        'a' as u8,
        't' as u8,
        '_' as u8,
    ]
}

/// The literal response payload `"OK"`.
pub open spec fn ok_bytes() -> Seq<u8> {
    seq!['O' as u8, 'K' as u8]
}

/// The literal response payload `"CLOSE_WAIT"`.
pub open spec fn close_wait_bytes() -> Seq<u8> {
    seq![
        'C' as u8,
        'L' as u8,
        'O' as u8,
        'S' as u8,
        'E' as u8,
        '_' as u8,
        'W' as u8,
        'A' as u8,
        'I' as u8,
        'T' as u8,
    ]
}

/// A response frame: one of the three sentinel payloads, or data carried
/// through exactly.
#[derive(Clone, Debug, PartialEq)]
pub enum ResponseFrame {
    Heartbeat,
    Okay,
    CloseWait,
    Data(StringOrByteVec),
}

/// How a response payload reads as a typed response frame: the sentinel
/// payloads map to their tags, and anything else is data preserving the
/// exact bytes.
pub open spec fn decodes_response(data: Seq<u8>, r: ResponseFrame) -> bool {
    if data == heartbeat_bytes() {
        r == ResponseFrame::Heartbeat
    } else if data == ok_bytes() {
        r == ResponseFrame::Okay
    } else if data == close_wait_bytes() {
        r == ResponseFrame::CloseWait
    } else {
        r matches ResponseFrame::Data(d) && d.bytes() == data && d.wf()
    }
}

impl ResponseFrame {
    /// Types a raw response payload.
    pub fn from_vec(v: Vec<u8>) -> (r: ResponseFrame)
        ensures
            decodes_response(v@, r),
    {
        if is_heartbeat_payload(&v) {
            return ResponseFrame::Heartbeat;
        }
        if v.len() == 2 && {
            let b0 = v[0];
            let b1 = v[1];
            b0 == 'O' as u8 && b1 == 'K' as u8
        } {
            proof {
                assert(v@ =~= ok_bytes());
            }
            return ResponseFrame::Okay;
        }
        if is_close_wait_payload(&v) {
            return ResponseFrame::CloseWait;
        }
        ResponseFrame::Data(StringOrByteVec::from_vec(v))
    }
}

/// Whether the payload is exactly `"_heartbeat_"`.
fn is_heartbeat_payload(v: &Vec<u8>) -> (r: bool)
    ensures
        r <==> v@ == heartbeat_bytes(),
{
    if v.len() != 11 {
        return false;
    }
    let r = v[0] == '_' as u8 && v[1] == 'h' as u8 && v[2] == 'e' as u8 && v[3] == 'a' as u8 && v[4]
        == 'r' as u8 && v[5] == 't' as u8 && v[6] == 'b' as u8 && v[7] == 'e' as u8 && v[8]
        == 'a' as u8 && v[9] == 't' as u8 && v[10] == '_' as u8;
    proof {
        if r {
            assert(v@ =~= heartbeat_bytes());
        }
    }
    r
}

/// Whether the payload is exactly `"CLOSE_WAIT"`.
fn is_close_wait_payload(v: &Vec<u8>) -> (r: bool)
    ensures
        r <==> v@ == close_wait_bytes(),
{
    if v.len() != 10 {
        return false;
    }
    let r = v[0] == 'C' as u8 && v[1] == 'L' as u8 && v[2] == 'O' as u8 && v[3] == 'S' as u8 && v[4]
        == 'E' as u8 && v[5] == '_' as u8 && v[6] == 'W' as u8 && v[7] == 'A' as u8 && v[8]
        == 'I' as u8 && v[9] == 'T' as u8;
    proof {
        if r {
            assert(v@ =~= close_wait_bytes());
        }
    }
    r
}

/// The literal error payload prefix `"E_INVALID "`.
pub open spec fn e_invalid_prefix() -> Seq<u8> {
    seq![
        'E' as u8,
        '_' as u8,
        'I' as u8,
        'N' as u8,
        'V' as u8,
        'A' as u8,
        'L' as u8,
        'I' as u8,
        'D' as u8,
        ' ' as u8,
    ]
}

/// The literal error payload `"E_INVALID"`.
pub open spec fn e_invalid_bytes() -> Seq<u8> {
    seq!['E' as u8, '_' as u8, 'I' as u8, 'N' as u8, 'V' as u8, 'A' as u8, 'L' as u8, 'I' as u8, 'D' as u8]
}

/// The literal error payload `"E_BAD_BODY"`.
pub open spec fn e_bad_body_bytes() -> Seq<u8> {
    seq![
        'E' as u8,
        '_' as u8,
        'B' as u8,
        'A' as u8,
        'D' as u8,
        '_' as u8,
        'B' as u8,
        'O' as u8,
        'D' as u8,
        'Y' as u8,
    ]
}

/// The literal error payload `"E_BAD_TOPIC"`.
pub open spec fn e_bad_topic_bytes() -> Seq<u8> {
    seq![
        'E' as u8,
        '_' as u8,
        'B' as u8,
        'A' as u8,
        'D' as u8,
        '_' as u8,
        'T' as u8,
        'O' as u8,
        'P' as u8,
        'I' as u8,
        'C' as u8,
    ]
}

/// An error frame. The error-code set is open-ended by design: codes not
/// matched here land in `Unknown` with their exact payload, so new prefixes
/// can be added without breaking existing matches.
#[derive(Clone, Debug, PartialEq)]
pub enum ErrorFrame {
    Invalid(Option<StringOrByteVec>),
    BadBody(Option<StringOrByteVec>),
    BadTopic(Option<StringOrByteVec>),
    Unknown(StringOrByteVec),
}

/// How an error payload reads as a typed error frame.
pub open spec fn decodes_error(data: Seq<u8>, r: ErrorFrame) -> bool {
    if data.len() >= 10 && data.subrange(0, 10) == e_invalid_prefix() {
        r matches ErrorFrame::Invalid(Some(d)) && d.bytes() == data.subrange(10, data.len() as int)
            && d.wf()
    } else if data == e_invalid_bytes() {
        r == ErrorFrame::Invalid(None::<StringOrByteVec>)
    } else if data == e_bad_body_bytes() {
        r == ErrorFrame::BadBody(None::<StringOrByteVec>)
    } else if data == e_bad_topic_bytes() {
        r == ErrorFrame::BadTopic(None::<StringOrByteVec>)
    } else {
        r matches ErrorFrame::Unknown(d) && d.bytes() == data && d.wf()
    }
}

impl ErrorFrame {
    /// Types a raw error payload.
    pub fn from_vec(v: Vec<u8>) -> (r: ErrorFrame)
        ensures
            decodes_error(v@, r),
    {
        if v.len() >= 10 && bytes_eq(
            vstd::slice::slice_subrange(v.as_slice(), 0, 10),
            prefix_e_invalid().as_slice(),
        ) {
            let detail = vstd::slice::slice_to_vec(
                vstd::slice::slice_subrange(v.as_slice(), 10, v.len()),
            );
            return ErrorFrame::Invalid(Some(StringOrByteVec::from_vec(detail)));
        }
        if bytes_eq(v.as_slice(), payload_e_invalid().as_slice()) {
            return ErrorFrame::Invalid(None);
        }
        if bytes_eq(v.as_slice(), payload_e_bad_body().as_slice()) {
            return ErrorFrame::BadBody(None);
        }
        if bytes_eq(v.as_slice(), payload_e_bad_topic().as_slice()) {
            return ErrorFrame::BadTopic(None);
        }
        ErrorFrame::Unknown(StringOrByteVec::from_vec(v))
    }
}

/// The prefix `"E_INVALID "` as a vector.
fn prefix_e_invalid() -> (r: Vec<u8>)
    ensures
        r@ == e_invalid_prefix(),
{
    let mut r: Vec<u8> = Vec::new();
    r.push('E' as u8);
    r.push('_' as u8);
    r.push('I' as u8);
    r.push('N' as u8);
    r.push('V' as u8);
    r.push('A' as u8);
    r.push('L' as u8);
    r.push('I' as u8);
    r.push('D' as u8);
    r.push(' ' as u8);
    proof {
        assert(r@ =~= e_invalid_prefix());
    }
    r
}

/// The payload `"E_INVALID"` as a vector.
fn payload_e_invalid() -> (r: Vec<u8>)
    ensures
        r@ == e_invalid_bytes(),
{
    let mut r = prefix_e_invalid();
    let _ = r.pop();
    proof {
        assert(r@ =~= e_invalid_bytes());
    }
    r
}

/// The payload `"E_BAD_BODY"` as a vector.
fn payload_e_bad_body() -> (r: Vec<u8>)
    ensures
        r@ == e_bad_body_bytes(),
{
    let mut r: Vec<u8> = Vec::new();
    r.push('E' as u8);
    r.push('_' as u8);
    r.push('B' as u8);
    r.push('A' as u8);
    r.push('D' as u8);
    r.push('_' as u8);
    r.push('B' as u8);
    r.push('O' as u8);
    r.push('D' as u8);
    r.push('Y' as u8);
    proof {
        assert(r@ =~= e_bad_body_bytes());
    }
    r
}

/// The payload `"E_BAD_TOPIC"` as a vector.
fn payload_e_bad_topic() -> (r: Vec<u8>)
    ensures
        r@ == e_bad_topic_bytes(),
{
    let mut r: Vec<u8> = Vec::new();
    r.push('E' as u8);
    r.push('_' as u8);
    r.push('B' as u8);
    r.push('A' as u8);
    r.push('D' as u8);
    r.push('_' as u8);
    r.push('T' as u8);
    r.push('O' as u8);
    r.push('P' as u8);
    r.push('I' as u8);
    r.push('C' as u8);
    proof {
        assert(r@ =~= e_bad_topic_bytes());
    }
    r
}

/// A delivered message: its fixed-layout header fields and its body.
#[derive(Clone, Debug, PartialEq)]
pub struct MessageFrame {
    pub timestamp: i64,
    pub attempts: u16,
    pub message_id: MessageId,
    pub message: StringOrByteVec,
}

/// How a well-formed message payload reads as a typed message frame:
/// big-endian signed 64-bit timestamp, big-endian 16-bit attempt count,
/// 16 hex digits of identifier, and the remaining bytes as the body.
pub open spec fn decodes_message(data: Seq<u8>, m: MessageFrame) -> bool {
    &&& data.len() >= 26
    &&& valid_message_id_hex(data.subrange(10, 26))
    &&& m.timestamp == be64_value(data.subrange(0, 8)) as i64
    &&& m.attempts == be16_value(data.subrange(8, 10))
    &&& m.message_id@ == hex16_value(data.subrange(10, 26))
    &&& m.message.bytes() == data.subrange(26, data.len() as int)
    &&& m.message.wf()
}

/// Which error a malformed message payload fails with: too short for the
/// fixed 26-byte header, or a malformed identifier carrying the first
/// offending two-digit chunk.
pub open spec fn message_decode_error(data: Seq<u8>, e: Error) -> bool {
    if data.len() < 26 {
        e matches Error::NsqError(ErrorKind::InvalidMessageFrame)
    } else {
        e matches Error::NsqError(ErrorKind::InvalidMessageId(bad)) && exists|j: int|
            0 <= j < 8 && !hex_chunk_ok(data.subrange(10, 26), j) && (forall|k: int|
                0 <= k < j ==> hex_chunk_ok(data.subrange(10, 26), k)) && bad@ == data.subrange(
                10 + 2 * j,
                10 + 2 * j + 2,
            )
    }
}

impl MessageFrame {
    /// Types a raw message payload, or fails for a payload shorter than the
    /// fixed 26-byte header or with a malformed identifier.
    pub fn from_vec(v: Vec<u8>) -> (r: Result<MessageFrame, Error>)
        ensures
            (v@.len() >= 26 && valid_message_id_hex(v@.subrange(10, 26))) ==> (r matches Ok(m)
                && decodes_message(v@, m)),
            !(v@.len() >= 26 && valid_message_id_hex(v@.subrange(10, 26))) ==> (r matches Err(e)
                && message_decode_error(v@, e)),
    {
        if v.len() < 8 + 2 + 16 {
            return Err(Error::invalid_message_frame_error());
        }
        let timestamp_u: u64 = read_be64(v.as_slice(), 0);
        let timestamp: i64 = #[verifier::truncate] (timestamp_u as i64);
        let attempts: u16 = read_be16(v.as_slice(), 8);
        let id_bytes = vstd::slice::slice_subrange(v.as_slice(), 10, 26);
        let message_id = match MessageId::from_hex_bytes(id_bytes) {
            Ok(m) => m,
            Err(e) => {
                proof {
                    let hex = v@.subrange(10, 26);
                    assert(hex.len() == 16);
                    let j = choose|j: int|
                        0 <= j < 8 && !hex_chunk_ok(hex, j) && (forall|k: int|
                            0 <= k < j ==> hex_chunk_ok(hex, k));
                    assert(hex.subrange(2 * j, 2 * j + 2) =~= v@.subrange(
                        10 + 2 * j,
                        10 + 2 * j + 2,
                    ));
                }
                return Err(e);
            },
        };
        let body = vstd::slice::slice_to_vec(
            vstd::slice::slice_subrange(v.as_slice(), 26, v.len()),
        );
        let message = StringOrByteVec::from_vec(body);
        Ok(MessageFrame { timestamp, attempts, message_id, message })
    }
}

/// One typed inbound frame.
#[derive(Clone, Debug, PartialEq)]
pub enum Frame {
    ResponseFrame(ResponseFrame),
    ErrorFrame(ErrorFrame),
    MessageFrame(MessageFrame),
}

/// Interprets one raw `(type, payload)` tuple as a typed frame.
///
/// Response and error payloads always decode; a message payload fails for a
/// short header or a malformed identifier; an unknown frame-type code is
/// rejected rather than silently ignored. Every `Err` is terminal for the
/// current read.
pub fn decode_frame(frame_type: FrameType, data: Vec<u8>) -> (r: Result<Frame, Error>)
    ensures
        frame_type is Response ==> (r matches Ok(Frame::ResponseFrame(rf)) && decodes_response(
            data@,
            rf,
        )),
        frame_type is Error ==> (r matches Ok(Frame::ErrorFrame(ef)) && decodes_error(data@, ef)),
        (frame_type is Message && data@.len() >= 26 && valid_message_id_hex(
            data@.subrange(10, 26),
        )) ==> (r matches Ok(Frame::MessageFrame(m)) && decodes_message(data@, m)),
        (frame_type is Message && !(data@.len() >= 26 && valid_message_id_hex(
            data@.subrange(10, 26),
        ))) ==> (r matches Err(e) && message_decode_error(data@, e)),
        frame_type matches FrameType::Unknown(code) ==> (r matches Err(e) && e matches
            Error::NsqError(ErrorKind::UnknownFrameType(c)) && c == code),
{
    match frame_type {
        FrameType::Response => Ok(Frame::ResponseFrame(ResponseFrame::from_vec(data))),
        FrameType::Error => Ok(Frame::ErrorFrame(ErrorFrame::from_vec(data))),
        FrameType::Message => {
            match MessageFrame::from_vec(data) {
                Ok(m) => Ok(Frame::MessageFrame(m)),
                Err(e) => Err(e),
            }
        },
        FrameType::Unknown(code) => Err(Error::unknown_frame_type_error(code)),
    }
}

} // verus!
