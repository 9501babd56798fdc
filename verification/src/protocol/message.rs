//! Message identifiers: opaque 64-bit values exchanged on the wire as
//! exactly 16 ASCII hex digits (case-insensitive on read, lowercase
//! zero-padded on write).

use vstd::prelude::*;

use crate::error::{Error, ErrorKind};

verus! {

/// Whether `b` is an ASCII hex digit (`0-9`, `A-F`, `a-f`).
pub open spec fn is_hex_digit(b: u8) -> bool {
    (('0' as u8) <= b && b <= ('9' as u8)) || (('A' as u8) <= b && b <= ('F' as u8)) || ((
    'a' as u8) <= b && b <= ('f' as u8))
}

/// The numeric value of a hex digit.
pub open spec fn hex_digit_value(b: u8) -> u8
    recommends
        is_hex_digit(b),
{
    if ('0' as u8) <= b && b <= ('9' as u8) {
        (b - ('0' as u8)) as u8
    } else if ('A' as u8) <= b && b <= ('F' as u8) {
        (b - ('A' as u8) + 10) as u8
    } else {
        (b - ('a' as u8) + 10) as u8
    }
}

/// The lowercase hex digit for a value below 16.
pub open spec fn lower_hex_digit(n: u8) -> u8
    recommends
        n < 16,
{
    if n < 10 {
        (('0' as u8) + n) as u8
    } else {
        (('a' as u8) + n - 10) as u8
    }
}

/// Whether `b` is a lowercase hex digit.
pub open spec fn is_lower_hex_digit(b: u8) -> bool {
    (('0' as u8) <= b && b <= ('9' as u8)) || (('a' as u8) <= b && b <= ('f' as u8))
}

/// Whether `s` is a well-formed wire identifier: exactly 16 hex digits.
pub open spec fn valid_message_id_hex(s: Seq<u8>) -> bool {
    s.len() == 16 && forall|i: int| 0 <= i < 16 ==> is_hex_digit(#[trigger] s[i])
}

/// The `i`-th four-bit group of `id`, most significant first.
pub open spec fn message_id_nibble(id: u64, i: int) -> u8
    recommends
        0 <= i < 16,
{
    ((id >> ((60 - 4 * i) as u64)) & 0xF) as u8
}

/// The 16 lowercase hex digits of `id`, most significant first.
pub open spec fn message_id_hex(id: u64) -> Seq<u8> {
    Seq::new(16, |i: int| lower_hex_digit(message_id_nibble(id, i)))
}

/// The 64-bit value written as 16 big-endian hex digits.
pub open spec fn hex16_value(s: Seq<u8>) -> u64
    recommends
        valid_message_id_hex(s),
{
    ((hex_digit_value(s[0]) as u64) << 60) | ((hex_digit_value(s[1]) as u64) << 56) | ((
    hex_digit_value(s[2]) as u64) << 52) | ((hex_digit_value(s[3]) as u64) << 48) | ((
    hex_digit_value(s[4]) as u64) << 44) | ((hex_digit_value(s[5]) as u64) << 40) | ((
    hex_digit_value(s[6]) as u64) << 36) | ((hex_digit_value(s[7]) as u64) << 32) | ((
    hex_digit_value(s[8]) as u64) << 28) | ((hex_digit_value(s[9]) as u64) << 24) | ((
    hex_digit_value(s[10]) as u64) << 20) | ((hex_digit_value(s[11]) as u64) << 16) | ((
    hex_digit_value(s[12]) as u64) << 12) | ((hex_digit_value(s[13]) as u64) << 8) | ((
    hex_digit_value(s[14]) as u64) << 4) | (hex_digit_value(s[15]) as u64)
}

/// Whether the `j`-th two-digit chunk of a 16-digit identifier is hex.
pub open spec fn hex_chunk_ok(s: Seq<u8>, j: int) -> bool
    recommends
        s.len() == 16,
        0 <= j < 8,
{
    is_hex_digit(s[2 * j]) && is_hex_digit(s[2 * j + 1])
}

/// The byte encoded by the `j`-th two-digit chunk.
pub open spec fn hex_chunk_value(s: Seq<u8>, j: int) -> u8
    recommends
        s.len() == 16,
        0 <= j < 8,
        hex_chunk_ok(s, j),
{
    (hex_digit_value(s[2 * j]) << 4) | hex_digit_value(s[2 * j + 1])
}

/// The lowercase digit of a value below 16 is a hex digit that reads back
/// to the same value.
pub proof fn lemma_lower_hex_digit(n: u8)
    requires
        n < 16,
    ensures
        is_hex_digit(lower_hex_digit(n)),
        is_lower_hex_digit(lower_hex_digit(n)),
        hex_digit_value(lower_hex_digit(n)) == n,
{
}

/// The numeric value of a parsed hex digit pair.
fn from_hex_nybble(b: u8) -> (r: Option<u8>)
    ensures
        r == if is_hex_digit(b) {
            Some(hex_digit_value(b))
        } else {
            None::<u8>
        },
{
    if b >= ('0' as u8) && b <= ('9' as u8) {
        return Some(b - ('0' as u8));
    }
    if b >= ('A' as u8) && b <= ('F' as u8) {
        return Some(10 + b - ('A' as u8));
    }
    if b >= ('a' as u8) && b <= ('f' as u8) {
        return Some(10 + b - ('a' as u8));
    }
    None
}

/// The byte encoded by a two-digit hex pair, or nothing if either digit is
/// not hex.
fn from_hex(b: &[u8]) -> (r: Option<u8>)
    requires
        b@.len() == 2,
    ensures
        r == if is_hex_digit(b@[0]) && is_hex_digit(b@[1]) {
            Some((hex_digit_value(b@[0]) << 4) | hex_digit_value(b@[1]))
        } else {
            None::<u8>
        },
{
    let high_nybble: u8 = match from_hex_nybble(b[0]) {
        Some(v) => v,
        None => {
            return None;
        },
    };
    let low_nybble: u8 = match from_hex_nybble(b[1]) {
        Some(v) => v,
        None => {
            return None;
        },
    };
    Some(high_nybble << 4 | low_nybble)
}

/// A message identifier: a 64-bit value uniquely naming one delivered
/// message. Its view is that value.
#[derive(Copy, Clone, Debug, PartialEq, Eq, Structural, PartialOrd)]
pub struct MessageId {
    id: u64,
}

impl View for MessageId {
    type V = u64;

    closed spec fn view(&self) -> u64 {
        self.id
    }
}

impl MessageId {
    /// Decodes exactly 16 hex digits, big-endian, into an identifier.
    ///
    /// Fails with `InvalidMessageId` carrying the whole input when the
    /// length is not 16, and carrying the first non-hex two-digit chunk
    /// otherwise.
    pub fn from_hex_bytes(hb: &[u8]) -> (r: Result<MessageId, Error>)
        ensures
            valid_message_id_hex(hb@) ==> (r matches Ok(m) && m@ == hex16_value(hb@)),
            !valid_message_id_hex(hb@) ==> (r matches Err(e) && e matches Error::NsqError(
                ErrorKind::InvalidMessageId(bad),
            ) && if hb@.len() != 16 {
                bad@ == hb@
            } else {
                exists|j: int|
                    0 <= j < 8 && !hex_chunk_ok(hb@, j) && (forall|k: int|
                        0 <= k < j ==> hex_chunk_ok(hb@, k)) && bad@ == hb@.subrange(
                        2 * j,
                        2 * j + 2,
                    )
            }),
    {
        if hb.len() != 16 {
            return Err(Error::invalid_message_id_error(hb));
        }
        let mut bytes: Vec<u8> = Vec::new();
        let mut j: usize = 0;
        while j < 8
            invariant
                hb@.len() == 16,
                j <= 8,
                bytes@.len() == j,
                forall|k: int| 0 <= k < j ==> hex_chunk_ok(hb@, k),
                forall|k: int| 0 <= k < j ==> bytes@[k] == hex_chunk_value(hb@, k),
            decreases 8 - j,
        {
            let pair = vstd::slice::slice_subrange(hb, 2 * j, 2 * j + 2);
            match from_hex(pair) {
                Some(v) => {
                    bytes.push(v);
                },
                None => {
                    proof {
                        let jj = j as int;
                        assert(!hex_chunk_ok(hb@, jj));
                        assert(!valid_message_id_hex(hb@));
                    }
                    return Err(Error::invalid_message_id_error(pair));
                },
            }
            j += 1;
        }
        let id: u64 = ((bytes[0] as u64) << 56) | ((bytes[1] as u64) << 48) | ((bytes[2] as u64)
            << 40) | ((bytes[3] as u64) << 32) | ((bytes[4] as u64) << 24) | ((bytes[5] as u64)
            << 16) | ((bytes[6] as u64) << 8) | (bytes[7] as u64);
        proof {
            assert forall|i: int| 0 <= i < 16 implies is_hex_digit(#[trigger] hb@[i]) by {
                let k = i / 2;
                assert(hex_chunk_ok(hb@, k));
            }
            let v0 = hex_digit_value(hb@[0]);
            let v1 = hex_digit_value(hb@[1]);
            let v2 = hex_digit_value(hb@[2]);
            let v3 = hex_digit_value(hb@[3]);
            let v4 = hex_digit_value(hb@[4]);
            let v5 = hex_digit_value(hb@[5]);
            let v6 = hex_digit_value(hb@[6]);
            let v7 = hex_digit_value(hb@[7]);
            let v8 = hex_digit_value(hb@[8]);
            let v9 = hex_digit_value(hb@[9]);
            let v10 = hex_digit_value(hb@[10]);
            let v11 = hex_digit_value(hb@[11]);
            let v12 = hex_digit_value(hb@[12]);
            let v13 = hex_digit_value(hb@[13]);
            let v14 = hex_digit_value(hb@[14]);
            let v15 = hex_digit_value(hb@[15]);
            assert(((((v0 << 4) | v1) as u64) << 56) | ((((v2 << 4) | v3) as u64) << 48) | ((((
            v4 << 4) | v5) as u64) << 40) | ((((v6 << 4) | v7) as u64) << 32) | ((((v8 << 4)
                | v9) as u64) << 24) | ((((v10 << 4) | v11) as u64) << 16) | ((((v12 << 4)
                | v13) as u64) << 8) | (((v14 << 4) | v15) as u64) == ((v0 as u64) << 60) | ((
            v1 as u64) << 56) | ((v2 as u64) << 52) | ((v3 as u64) << 48) | ((v4 as u64) << 44) | ((
            v5 as u64) << 40) | ((v6 as u64) << 36) | ((v7 as u64) << 32) | ((v8 as u64) << 28) | ((
            v9 as u64) << 24) | ((v10 as u64) << 20) | ((v11 as u64) << 16) | ((v12 as u64)
                << 12) | ((v13 as u64) << 8) | ((v14 as u64) << 4) | (v15 as u64)) by (bit_vector)
                requires
                    v0 < 16,
                    v1 < 16,
                    v2 < 16,
                    v3 < 16,
                    v4 < 16,
                    v5 < 16,
                    v6 < 16,
                    v7 < 16,
                    v8 < 16,
                    v9 < 16,
                    v10 < 16,
                    v11 < 16,
                    v12 < 16,
                    v13 < 16,
                    v14 < 16,
                    v15 < 16,
            ;
        }
        Ok(MessageId { id })
    }

    /// Encodes the identifier as exactly 16 lowercase hex digits,
    /// zero-padded, most significant first.
    pub fn to_hex_bytes(&self) -> (r: Vec<u8>)
        ensures
            r@ == message_id_hex(self@),
    {
        let mut r: Vec<u8> = Vec::new();
        let mut i: usize = 0;
        while i < 16
            invariant
                i <= 16,
                r@.len() == i,
                forall|k: int| 0 <= k < i ==> r@[k] == lower_hex_digit(message_id_nibble(self@, k)),
            decreases 16 - i,
        {
            let shift: u64 = 60 - 4 * (i as u64);
            let nib: u64 = (self.id >> shift) & 0xF;
            proof {
                let s = shift;
                let x = self.id;
                assert((x >> s) & 0xF < 16) by (bit_vector);
            }
            let nib8: u8 = nib as u8;
            let digit: u8 = if nib8 < 10 {
                ('0' as u8) + nib8
            } else {
                ('a' as u8) + nib8 - 10
            };
            proof {
                assert(nib8 == message_id_nibble(self@, i as int));
                assert(digit == lower_hex_digit(message_id_nibble(self@, i as int)));
            }
            r.push(digit);
            i += 1;
        }
        proof {
            assert(r@ =~= message_id_hex(self@));
        }
        r
    }

    /// The identifier's numeric value.
    pub fn as_u64(&self) -> (r: u64)
        ensures
            r == self@,
    {
        self.id
    }
}

/// Law: decoding the hex encoding of any 64-bit identifier yields the
/// identifier again, and the encoding is always exactly 16 lowercase hex
/// digits.
pub proof fn lemma_message_id_round_trip(id: u64)
    ensures
        message_id_hex(id).len() == 16,
        forall|i: int| 0 <= i < 16 ==> is_lower_hex_digit(#[trigger] message_id_hex(id)[i]),
        valid_message_id_hex(message_id_hex(id)),
        hex16_value(message_id_hex(id)) == id,
{
    assert forall|i: int| 0 <= i < 16 implies {
        &&& is_lower_hex_digit(#[trigger] message_id_hex(id)[i])
        &&& is_hex_digit(message_id_hex(id)[i])
        &&& hex_digit_value(message_id_hex(id)[i]) == message_id_nibble(id, i)
    } by {
        let s: u64 = (60 - 4 * i) as u64;
        assert((id >> s) & 0xF < 16) by (bit_vector);
        lemma_lower_hex_digit(message_id_nibble(id, i));
    }
    assert(((((id >> 60) & 0xF) as u8 as u64) << 60) | ((((id >> 56) & 0xF) as u8 as u64) << 56)
        | ((((id >> 52) & 0xF) as u8 as u64) << 52) | ((((id >> 48) & 0xF) as u8 as u64) << 48)
        | ((((id >> 44) & 0xF) as u8 as u64) << 44) | ((((id >> 40) & 0xF) as u8 as u64) << 40)
        | ((((id >> 36) & 0xF) as u8 as u64) << 36) | ((((id >> 32) & 0xF) as u8 as u64) << 32)
        | ((((id >> 28) & 0xF) as u8 as u64) << 28) | ((((id >> 24) & 0xF) as u8 as u64) << 24)
        | ((((id >> 20) & 0xF) as u8 as u64) << 20) | ((((id >> 16) & 0xF) as u8 as u64) << 16)
        | ((((id >> 12) & 0xF) as u8 as u64) << 12) | ((((id >> 8) & 0xF) as u8 as u64) << 8) | ((((
    id >> 4) & 0xF) as u8 as u64) << 4) | (((id >> 0) & 0xF) as u8 as u64) == id) by (bit_vector);
}

} // verus!
