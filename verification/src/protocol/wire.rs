//! Big-endian integer coding and small byte-vector helpers shared by the
//! frame reader and writer. All integers on the wire are big-endian; they are
//! decoded with explicit shifts and masks, never by reinterpreting memory.

use vstd::prelude::*;

verus! {

/// The value of two big-endian bytes.
pub open spec fn be16_value(s: Seq<u8>) -> u16
    recommends
        s.len() == 2,
{
    ((s[0] as u16) << 8) | (s[1] as u16)
}

/// The value of four big-endian bytes.
pub open spec fn be32_value(s: Seq<u8>) -> u32
    recommends
        s.len() == 4,
{
    ((s[0] as u32) << 24) | ((s[1] as u32) << 16) | ((s[2] as u32) << 8) | (s[3] as u32)
}

/// The value of eight big-endian bytes.
pub open spec fn be64_value(s: Seq<u8>) -> u64
    recommends
        s.len() == 8,
{
    ((s[0] as u64) << 56) | ((s[1] as u64) << 48) | ((s[2] as u64) << 40) | ((s[3] as u64)
        << 32) | ((s[4] as u64) << 24) | ((s[5] as u64) << 16) | ((s[6] as u64) << 8) | (
    s[7] as u64)
}

/// The four big-endian bytes of a 32-bit value.
pub open spec fn be32_bytes(x: u32) -> Seq<u8> {
    seq![
        ((x >> 24) & 0xFF) as u8,
        ((x >> 16) & 0xFF) as u8,
        ((x >> 8) & 0xFF) as u8,
        (x & 0xFF) as u8,
    ]
}

/// Writing a 32-bit value as four big-endian bytes and reading them back
/// yields the value again.
pub proof fn lemma_be32_round_trip(x: u32)
    ensures
        be32_bytes(x).len() == 4,
        be32_value(be32_bytes(x)) == x,
{
    assert(((((x >> 24) & 0xFF) as u8 as u32) << 24) | ((((x >> 16) & 0xFF) as u8 as u32) << 16)
        | ((((x >> 8) & 0xFF) as u8 as u32) << 8) | ((x & 0xFF) as u8 as u32) == x)
        by (bit_vector);
}

/// Reads a 16-bit big-endian integer at `off`.
pub fn read_be16(s: &[u8], off: usize) -> (r: u16)
    requires
        off + 2 <= s@.len(),
    ensures
        r == be16_value(s@.subrange(off as int, off + 2)),
{
    let r: u16 = ((s[off] as u16) << 8) | (s[off + 1] as u16);
    proof {
        let sub = s@.subrange(off as int, off + 2);
        assert(sub[0] == s@[off as int]);
        assert(sub[1] == s@[off + 1]);
    }
    r
}

/// Reads a 32-bit big-endian integer at `off`.
pub fn read_be32(s: &[u8], off: usize) -> (r: u32)
    requires
        off + 4 <= s@.len(),
    ensures
        r == be32_value(s@.subrange(off as int, off + 4)),
{
    let r: u32 = ((s[off] as u32) << 24) | ((s[off + 1] as u32) << 16) | ((s[off + 2] as u32)
        << 8) | (s[off + 3] as u32);
    proof {
        let sub = s@.subrange(off as int, off + 4);
        assert(sub[0] == s@[off as int]);
        assert(sub[1] == s@[off + 1]);
        assert(sub[2] == s@[off + 2]);
        assert(sub[3] == s@[off + 3]);
    }
    r
}

/// Reads a 64-bit big-endian integer at `off`.
pub fn read_be64(s: &[u8], off: usize) -> (r: u64)
    requires
        off + 8 <= s@.len(),
    ensures
        r == be64_value(s@.subrange(off as int, off + 8)),
{
    let r: u64 = ((s[off] as u64) << 56) | ((s[off + 1] as u64) << 48) | ((s[off + 2] as u64)
        << 40) | ((s[off + 3] as u64) << 32) | ((s[off + 4] as u64) << 24) | ((s[off + 5] as u64)
        << 16) | ((s[off + 6] as u64) << 8) | (s[off + 7] as u64);
    proof {
        let sub = s@.subrange(off as int, off + 8);
        assert forall|i: int| 0 <= i < 8 implies sub[i] == s@[off + i] by {}
    }
    r
}

/// Appends the four big-endian bytes of `x`.
pub fn push_u32_be(v: &mut Vec<u8>, x: u32)
    ensures
        final(v)@ == old(v)@ + be32_bytes(x),
{
    proof {
        assert((x >> 24) & 0xFF < 256 && (x >> 16) & 0xFF < 256 && (x >> 8) & 0xFF < 256 && x
            & 0xFF < 256) by (bit_vector);
    }
    v.push(((x >> 24) & 0xFF) as u8);
    v.push(((x >> 16) & 0xFF) as u8);
    v.push(((x >> 8) & 0xFF) as u8);
    v.push((x & 0xFF) as u8);
    assert(v@ =~= old(v)@ + be32_bytes(x));
}

/// Appends a whole slice, byte for byte.
pub fn push_slice(v: &mut Vec<u8>, s: &[u8])
    ensures
        final(v)@ == old(v)@ + s@,
{
    let mut i: usize = 0;
    while i < s.len()
        invariant
            i <= s@.len(),
            v@ == old(v)@ + s@.subrange(0, i as int),
        decreases s@.len() - i,
    {
        v.push(s[i]);
        proof {
            assert(old(v)@ + s@.subrange(0, i as int) + seq![s@[i as int]] =~= old(v)@
                + s@.subrange(0, i + 1));
        }
        i += 1;
    }
    assert(s@.subrange(0, s@.len() as int) =~= s@);
}

/// Whether two byte strings hold the same bytes.
pub fn bytes_eq(a: &[u8], b: &[u8]) -> (r: bool)
    ensures
        r <==> a@ == b@,
{
    if a.len() != b.len() {
        return false;
    }
    let mut i: usize = 0;
    while i < a.len()
        invariant
            i <= a@.len(),
            a@.len() == b@.len(),
            forall|k: int| 0 <= k < i ==> a@[k] == b@[k],
        decreases a@.len() - i,
    {
        if a[i] != b[i] {
            return false;
        }
        i += 1;
    }
    proof {
        assert(a@ =~= b@);
    }
    true
}

} // verus!
