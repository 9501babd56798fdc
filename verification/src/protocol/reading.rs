//! The streaming frame reader. It accumulates bytes fed from the underlying
//! stream and yields one raw `(type, payload)` tuple per complete frame,
//! tolerating partial reads and keeping any bytes that belong to a
//! subsequent, already-buffered frame.

use vstd::prelude::*;

use crate::error::{Error, ErrorKind};
use crate::protocol::wire::{be32_bytes, be32_value, read_be32};

verus! {

/// The frame-type code of a server frame: 0 is a response, 1 an error,
/// 2 a message; every other code is unknown.
#[derive(Copy, Clone, Debug, PartialEq, Eq, Structural)]
pub enum FrameType {
    Response,
    Error,
    Message,
    Unknown(u32),
}

/// The frame type that a 32-bit wire code stands for.
pub open spec fn frame_type_of(code: u32) -> FrameType {
    if code == 0 {
        FrameType::Response
    } else if code == 1 {
        FrameType::Error
    } else if code == 2 {
        FrameType::Message
    } else {
        FrameType::Unknown(code)
    }
}

impl From<u32> for FrameType {
    fn from(val: u32) -> (r: FrameType) {
        match val {
            0 => FrameType::Response,
            1 => FrameType::Error,
            2 => FrameType::Message,
            n => FrameType::Unknown(n),
        }
    }
}

impl vstd::std_specs::convert::FromSpecImpl<u32> for FrameType {
    open spec fn obeys_from_spec() -> bool {
        true
    }

    open spec fn from_spec(v: u32) -> FrameType {
        frame_type_of(v)
    }
}

/// The length field of buffered bytes: a big-endian 32-bit integer covering
/// the frame-type field plus the payload, not itself.
pub open spec fn frame_length_of(p: Seq<u8>) -> u32
    recommends
        p.len() >= 4,
{
    be32_value(p.subrange(0, 4))
}

/// Whether the buffered bytes hold one whole frame: the two leading fields,
/// and as many bytes as the length field announces.
pub open spec fn frame_complete(p: Seq<u8>) -> bool {
    p.len() >= 8 && p.len() >= 4 + frame_length_of(p)
}

/// The streaming frame reader: an accumulation buffer and a cursor. Bytes
/// before the cursor are consumed; the pending bytes are everything after
/// it. The cursor (rather than element-by-element removal at the front)
/// keeps the cost of reading amortized linear in the bytes consumed.
pub struct ProtocolReader {
    buf: Vec<u8>,
    start: usize,
}

impl ProtocolReader {
    /// The cursor never passes the end of the buffer.
    pub closed spec fn wf(&self) -> bool {
        self.start <= self.buf@.len()
    }

    /// The bytes that have been fed but not yet consumed.
    pub closed spec fn pending(&self) -> Seq<u8> {
        self.buf@.subrange(self.start as int, self.buf@.len() as int)
    }

    /// A fresh reader with nothing pending.
    pub fn new() -> (r: ProtocolReader)
        ensures
            r.wf(),
            r.pending() == Seq::<u8>::empty(),
    {
        let r = ProtocolReader { buf: Vec::new(), start: 0 };
        proof {
            assert(r.pending() =~= Seq::<u8>::empty());
        }
        r
    }

    /// Appends bytes pulled from the underlying stream.
    pub fn feed(&mut self, data: &[u8])
        requires
            old(self).wf(),
        ensures
            final(self).wf(),
            final(self).pending() == old(self).pending() + data@,
    {
        crate::protocol::wire::push_slice(&mut self.buf, data);
        proof {
            assert(self.pending() =~= old(self).pending() + data@);
        }
    }

    /// Moves the pending bytes to the front of the buffer whenever the
    /// consumed prefix is at least as long as what is pending, so the copy
    /// work stays amortized constant per consumed byte.
    fn compact(&mut self)
        requires
            old(self).wf(),
        ensures
            final(self).wf(),
            final(self).pending() == old(self).pending(),
    {
        let rem = self.buf.len() - self.start;
        if self.start < rem {
            return ;
        }
        let ghost orig = self.buf@;
        let ghost start0 = self.start as int;
        let mut i: usize = 0;
        while i < rem
            invariant
                self.start == old(self).start,
                self.start <= self.buf@.len(),
                self.buf@.len() == orig.len(),
                orig.len() <= usize::MAX,
                self.start as int == start0,
                rem == orig.len() - start0,
                self.start >= rem,
                i <= rem,
                forall|k: int| 0 <= k < i ==> self.buf@[k] == orig[start0 + k],
                forall|k: int| start0 <= k < orig.len() ==> self.buf@[k] == orig[k],
            decreases rem - i,
        {
            let b = self.buf[self.start + i];
            self.buf.set(i, b);
            i += 1;
        }
        self.buf.truncate(rem);
        self.start = 0;
        proof {
            assert(self.pending() =~= orig.subrange(start0, orig.len() as int));
        }
    }

    /// Yields the next raw frame, if a whole one is buffered.
    ///
    /// Returns `Ok(None)` when more bytes must be fed first; the pending
    /// bytes are unchanged. When a whole frame is buffered whose length
    /// field is at least 4, returns its type and payload and consumes
    /// exactly that frame, keeping every byte of any frame behind it. A
    /// buffered length field below 4 cannot cover the frame-type field; it
    /// is a terminal `InvalidFrameLength` error.
    pub fn read_frame(&mut self) -> (r: Result<Option<(FrameType, Vec<u8>)>, Error>)
        requires
            old(self).wf(),
        ensures
            final(self).wf(),
            !frame_complete(old(self).pending()) ==> (r matches Ok(q) && q is None
                && final(self).pending() == old(self).pending()),
            (frame_complete(old(self).pending()) && frame_length_of(old(self).pending()) < 4) ==> (
            r matches Err(e) && e matches Error::NsqError(ErrorKind::InvalidFrameLength(n)) && n
                == frame_length_of(old(self).pending()) && final(self).pending() == old(
                self,
            ).pending()),
            (frame_complete(old(self).pending()) && frame_length_of(old(self).pending()) >= 4)
                ==> (r matches Ok(q) && q matches Some((ft, data)) && ft == frame_type_of(
                be32_value(old(self).pending().subrange(4, 8)),
            ) && data@ == old(self).pending().subrange(
                8,
                4 + frame_length_of(old(self).pending()),
            ) && final(self).pending() == old(self).pending().subrange(
                4 + frame_length_of(old(self).pending()),
                old(self).pending().len() as int,
            )),
    {
        let ghost p = self.pending();
        let buf_len = self.buf.len();
        let avail = buf_len - self.start;
        proof {
            assert(p.len() == avail);
        }
        if avail < 8 {
            return Ok(None);
        }
        let frame_length: u32 = read_be32(self.buf.as_slice(), self.start);
        proof {
            assert(self.buf@.subrange(self.start as int, self.start + 4) =~= p.subrange(0, 4));
        }
        let frame_length_us: usize = frame_length as usize;
        if frame_length_us > usize::MAX - 4 {
            proof {
                assert(!frame_complete(p));
            }
            return Ok(None);
        }
        let need: usize = frame_length_us + 4;
        if avail < need {
            return Ok(None);
        }
        if frame_length < 4 {
            return Err(Error::invalid_frame_length_error(frame_length));
        }
        let type_code: u32 = read_be32(self.buf.as_slice(), self.start + 4);
        proof {
            assert(self.buf@.subrange(self.start + 4, self.start + 8) =~= p.subrange(4, 8));
        }
        let data: Vec<u8> = vstd::slice::slice_to_vec(
            vstd::slice::slice_subrange(self.buf.as_slice(), self.start + 8, self.start + need),
        );
        proof {
            assert(self.buf@.subrange(self.start + 8, self.start + need) =~= p.subrange(
                8,
                4 + frame_length_of(p),
            ));
        }
        self.start = self.start + need;
        proof {
            assert(self.pending() =~= p.subrange(
                4 + frame_length_of(p),
                p.len() as int,
            ));
        }
        self.compact();
        Ok(Some((FrameType::from(type_code), data)))
    }
}

/// The bytes of one whole raw frame: the big-endian length field (covering
/// the type field plus the payload), the big-endian type code, then the
/// payload.
pub open spec fn raw_frame_bytes(type_code: u32, payload: Seq<u8>) -> Seq<u8>
    recommends
        payload.len() + 4 <= u32::MAX,
{
    be32_bytes((payload.len() + 4) as u32) + be32_bytes(type_code) + payload
}

/// Law: back-to-back, fully buffered frames come out one at a time, in
/// order. Whenever the pending bytes start with one whole encoded frame,
/// `read_frame` yields exactly that frame's type and payload and leaves
/// exactly the remaining bytes pending, so repeated calls walk the buffered
/// frames front to back.
pub proof fn lemma_pipelined_frames(type_code: u32, payload: Seq<u8>, rest: Seq<u8>)
    requires
        payload.len() + 4 <= u32::MAX,
    ensures
        frame_complete(raw_frame_bytes(type_code, payload) + rest),
        frame_length_of(raw_frame_bytes(type_code, payload) + rest) == payload.len() + 4,
        be32_value((raw_frame_bytes(type_code, payload) + rest).subrange(4, 8)) == type_code,
        (raw_frame_bytes(type_code, payload) + rest).subrange(
            8,
            4 + frame_length_of(raw_frame_bytes(type_code, payload) + rest),
        ) == payload,
        (raw_frame_bytes(type_code, payload) + rest).subrange(
            4 + frame_length_of(raw_frame_bytes(type_code, payload) + rest),
            (raw_frame_bytes(type_code, payload) + rest).len() as int,
        ) == rest,
{
    let flen: u32 = (payload.len() + 4) as u32;
    let b = raw_frame_bytes(type_code, payload) + rest;
    crate::protocol::wire::lemma_be32_round_trip(flen);
    crate::protocol::wire::lemma_be32_round_trip(type_code);
    assert(b.subrange(0, 4) =~= be32_bytes(flen));
    assert(b.subrange(4, 8) =~= be32_bytes(type_code));
    assert(b.subrange(8, 8 + payload.len() as int) =~= payload);
    assert(b.subrange(8 + payload.len() as int, b.len() as int) =~= rest);
}

} // verus!
