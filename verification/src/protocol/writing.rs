//! The command encoder: every outbound command rendered as the exact bytes
//! the protocol asks for. The writer only builds bytes; sending and
//! flushing belong to the owner of the stream.

use vstd::prelude::*;
use vstd::utf8::encode_utf8;

use crate::protocol::identification::{ident_json, Identification};
use crate::protocol::wire::{be32_bytes, push_slice, push_u32_be};

verus! {

/// The 4-byte magic preamble `"  V2"`, sent exactly once, first.
pub open spec fn magic_bytes() -> Seq<u8> {
    seq![' ' as u8, ' ' as u8, 'V' as u8, '2' as u8]
}

/// The command line `"IDENTIFY\n"`.
pub open spec fn identify_prefix() -> Seq<u8> {
    seq![
        'I' as u8,
        'D' as u8,
        'E' as u8,
        'N' as u8,
        'T' as u8,
        'I' as u8,
        'F' as u8,
        'Y' as u8,
        '\n' as u8,
    ]
}

/// The ASCII decimal digits of a non-negative number, no sign, no padding.
pub open spec fn decimal_bytes(n: int) -> Seq<u8>
    recommends
        n >= 0,
    decreases n,
{
    if n < 10 {
        seq![(('0' as u8) + n) as u8]
    } else {
        decimal_bytes(n / 10) + seq![(('0' as u8) + n % 10) as u8]
    }
}

/// The bytes of `SUB <topic> <channel>\n`.
pub open spec fn sub_bytes(topic: Seq<u8>, channel: Seq<u8>) -> Seq<u8> {
    seq!['S' as u8, 'U' as u8, 'B' as u8, ' ' as u8] + topic + seq![' ' as u8] + channel + seq![
        '\n' as u8,
    ]
}

/// The bytes of `PUB <topic>\n` + 32-bit length + body.
pub open spec fn pub_bytes(topic: Seq<u8>, message: Seq<u8>) -> Seq<u8>
    recommends
        message.len() <= u32::MAX,
{
    seq!['P' as u8, 'U' as u8, 'B' as u8, ' ' as u8] + topic + seq!['\n' as u8] + be32_bytes(
        message.len() as u32,
    ) + message
}

/// The bytes of `IDENTIFY\n` + 32-bit length + JSON body.
pub open spec fn identify_bytes(body: Seq<u8>) -> Seq<u8>
    recommends
        body.len() <= u32::MAX,
{
    identify_prefix() + be32_bytes(body.len() as u32) + body
}

/// The bytes of `RDY <count>\n`.
pub open spec fn rdy_bytes(count: u32) -> Seq<u8> {
    seq!['R' as u8, 'D' as u8, 'Y' as u8, ' ' as u8] + decimal_bytes(count as int) + seq![
        '\n' as u8,
    ]
}

/// The bytes of `FIN <id>\n`.
pub open spec fn fin_bytes(message_id: Seq<u8>) -> Seq<u8> {
    seq!['F' as u8, 'I' as u8, 'N' as u8, ' ' as u8] + message_id + seq!['\n' as u8]
}

/// The bytes of `REQ <id> <timeout>\n`.
pub open spec fn req_bytes(message_id: Seq<u8>, timeout: u32) -> Seq<u8> {
    seq!['R' as u8, 'E' as u8, 'Q' as u8, ' ' as u8] + message_id + seq![' ' as u8]
        + decimal_bytes(timeout as int) + seq!['\n' as u8]
}

/// The bytes of `TOUCH <id>\n`.
pub open spec fn touch_bytes(message_id: Seq<u8>) -> Seq<u8> {
    seq!['T' as u8, 'O' as u8, 'U' as u8, 'C' as u8, 'H' as u8, ' ' as u8] + message_id + seq![
        '\n' as u8,
    ]
}

/// The bytes of `CLS\n`.
pub open spec fn cls_bytes() -> Seq<u8> {
    seq!['C' as u8, 'L' as u8, 'S' as u8, '\n' as u8]
}

/// The bytes of `NOP\n`.
pub open spec fn nop_bytes() -> Seq<u8> {
    seq!['N' as u8, 'O' as u8, 'P' as u8, '\n' as u8]
}

/// The bytes of `AUTH\n` + 32-bit length + secret.
pub open spec fn auth_bytes(secret: Seq<u8>) -> Seq<u8>
    recommends
        secret.len() <= u32::MAX,
{
    seq!['A' as u8, 'U' as u8, 'T' as u8, 'H' as u8, '\n' as u8] + be32_bytes(
        secret.len() as u32,
    ) + secret
}

/// The magic preamble.
pub fn write_magic() -> (r: Vec<u8>)
    ensures
        r@ == magic_bytes(),
{
    let mut r: Vec<u8> = Vec::new();
    r.push(' ' as u8);
    r.push(' ' as u8);
    r.push('V' as u8);
    r.push('2' as u8);
    proof {
        assert(r@ =~= magic_bytes());
    }
    r
}

/// The IDENTIFY command: command line, 32-bit big-endian body length, then
/// the descriptor's JSON body.
///
/// A body longer than the 32-bit length field can carry is a programming
/// error; it is refused outright rather than silently truncated.
pub fn write_identify(identification: &Identification) -> (r: Option<Vec<u8>>)
    ensures
        r is Some <==> ident_json(*identification).len() <= u32::MAX,
        r matches Some(v) ==> v@ == identify_bytes(ident_json(*identification)),
{
    let body = identification.json_bytes();
    if body.len() > u32::MAX as usize {
        return None;
    }
    let mut r: Vec<u8> = Vec::new();
    r.push('I' as u8);
    r.push('D' as u8);
    r.push('E' as u8);
    r.push('N' as u8);
    r.push('T' as u8);
    r.push('I' as u8);
    r.push('F' as u8);
    r.push('Y' as u8);
    r.push('\n' as u8);
    push_u32_be(&mut r, body.len() as u32);
    push_slice(&mut r, body.as_slice());
    proof {
        assert(r@ =~= identify_bytes(ident_json(*identification)));
    }
    Some(r)
}

/// The SUB command line.
pub fn write_sub(topic: &str, channel: &str) -> (r: Vec<u8>)
    ensures
        r@ == sub_bytes(encode_utf8(topic@), encode_utf8(channel@)),
{
    let mut r: Vec<u8> = Vec::new();
    r.push('S' as u8);
    r.push('U' as u8);
    r.push('B' as u8);
    r.push(' ' as u8);
    push_slice(&mut r, topic.as_bytes());
    r.push(' ' as u8);
    push_slice(&mut r, channel.as_bytes());
    r.push('\n' as u8);
    proof {
        assert(r@ =~= sub_bytes(encode_utf8(topic@), encode_utf8(channel@)));
    }
    r
}

/// The PUB command: topic line, 32-bit big-endian body length, raw body.
pub fn write_pub(topic: &str, message: &[u8]) -> (r: Vec<u8>)
    requires
        message@.len() <= u32::MAX,
    ensures
        r@ == pub_bytes(encode_utf8(topic@), message@),
{
    let mut r: Vec<u8> = Vec::new();
    r.push('P' as u8);
    r.push('U' as u8);
    r.push('B' as u8);
    r.push(' ' as u8);
    push_slice(&mut r, topic.as_bytes());
    r.push('\n' as u8);
    push_u32_be(&mut r, message.len() as u32);
    push_slice(&mut r, message);
    proof {
        assert(r@ =~= pub_bytes(encode_utf8(topic@), message@));
    }
    r
}

/// Batched publish is outside this client's protocol surface, so no bytes
/// are encoded. On the wire the command would be the topic line
/// `MPUB <topic>\n`, a 32-bit message count, then each body preceded by its
/// own 32-bit length.
pub fn write_mpub(topic: &str, messages: &Vec<Vec<u8>>) -> (r: Vec<u8>)
    ensures
        r@ == Seq::<u8>::empty(),
{
    let _ = topic;
    let _ = messages;
    let r: Vec<u8> = Vec::new();
    r
}

/// The RDY command line: readiness for `rdy` more messages.
pub fn write_rdy(rdy: u32) -> (r: Vec<u8>)
    ensures
        r@ == rdy_bytes(rdy),
{
    let mut r: Vec<u8> = Vec::new();
    r.push('R' as u8);
    r.push('D' as u8);
    r.push('Y' as u8);
    r.push(' ' as u8);
    let digits = u32_decimal(rdy);
    push_slice(&mut r, digits.as_slice());
    r.push('\n' as u8);
    proof {
        assert(r@ =~= rdy_bytes(rdy));
    }
    r
}

/// The FIN command line, keyed by the wire form of a message identifier.
pub fn write_fin(message_id: &[u8]) -> (r: Vec<u8>)
    ensures
        r@ == fin_bytes(message_id@),
{
    let mut r: Vec<u8> = Vec::new();
    r.push('F' as u8);
    r.push('I' as u8);
    r.push('N' as u8);
    r.push(' ' as u8);
    push_slice(&mut r, message_id);
    r.push('\n' as u8);
    proof {
        assert(r@ =~= fin_bytes(message_id@));
    }
    r
}

/// The REQ command line: requeue with a timeout in milliseconds.
pub fn write_req(message_id: &str, timeout: u32) -> (r: Vec<u8>)
    ensures
        r@ == req_bytes(encode_utf8(message_id@), timeout),
{
    let mut r: Vec<u8> = Vec::new();
    r.push('R' as u8);
    r.push('E' as u8);
    r.push('Q' as u8);
    r.push(' ' as u8);
    push_slice(&mut r, message_id.as_bytes());
    r.push(' ' as u8);
    let digits = u32_decimal(timeout);
    push_slice(&mut r, digits.as_slice());
    r.push('\n' as u8);
    proof {
        assert(r@ =~= req_bytes(encode_utf8(message_id@), timeout));
    }
    r
}

/// The TOUCH command line: extends a delivered message's timeout.
pub fn write_touch(message_id: &str) -> (r: Vec<u8>)
    ensures
        r@ == touch_bytes(encode_utf8(message_id@)),
{
    let mut r: Vec<u8> = Vec::new();
    r.push('T' as u8);
    r.push('O' as u8);
    r.push('U' as u8);
    r.push('C' as u8);
    r.push('H' as u8);
    r.push(' ' as u8);
    push_slice(&mut r, message_id.as_bytes());
    r.push('\n' as u8);
    proof {
        assert(r@ =~= touch_bytes(encode_utf8(message_id@)));
    }
    r
}

/// The CLS command line.
pub fn write_cls() -> (r: Vec<u8>)
    ensures
        r@ == cls_bytes(),
{
    let mut r: Vec<u8> = Vec::new();
    r.push('C' as u8);
    r.push('L' as u8);
    r.push('S' as u8);
    r.push('\n' as u8);
    proof {
        assert(r@ =~= cls_bytes());
    }
    r
}

/// The NOP command line.
pub fn write_nop() -> (r: Vec<u8>)
    ensures
        r@ == nop_bytes(),
{
    let mut r: Vec<u8> = Vec::new();
    r.push('N' as u8);
    r.push('O' as u8);
    r.push('P' as u8);
    r.push('\n' as u8);
    proof {
        assert(r@ =~= nop_bytes());
    }
    r
}

/// The AUTH command: command line, 32-bit big-endian length, secret bytes.
pub fn write_auth(secret: &[u8]) -> (r: Vec<u8>)
    requires
        secret@.len() <= u32::MAX,
    ensures
        r@ == auth_bytes(secret@),
{
    let mut r: Vec<u8> = Vec::new();
    r.push('A' as u8);
    r.push('U' as u8);
    r.push('T' as u8);
    r.push('H' as u8);
    r.push('\n' as u8);
    push_u32_be(&mut r, secret.len() as u32);
    push_slice(&mut r, secret);
    proof {
        assert(r@ =~= auth_bytes(secret@));
    }
    r
}

/// The ASCII decimal rendering of a 32-bit count.
fn u32_decimal(n: u32) -> (r: Vec<u8>)
    ensures
        r@ == decimal_bytes(n as int),
    decreases n,
{
    if n < 10 {
        let mut r: Vec<u8> = Vec::new();
        r.push(('0' as u8) + (n as u8));
        proof {
            assert(r@ =~= decimal_bytes(n as int));
        }
        r
    } else {
        let mut r = u32_decimal(n / 10);
        r.push(('0' as u8) + ((n % 10) as u8));
        proof {
            assert(r@ =~= decimal_bytes(n as int));
        }
        r
    }
}

} // verus!
