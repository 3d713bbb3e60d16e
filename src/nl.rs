//! The contract every wire field honours: encode into a buffer, decode from
//! one, and report the encoded size.

use vstd::prelude::*;

use crate::buffer::{
    i32_at,
    i32_bytes,
    lemma_i32_round_trip,
    lemma_u16_round_trip,
    lemma_u32_round_trip,
    u16_at,
    u16_bytes,
    u32_at,
    u32_bytes,
    DeError,
    ReadBuffer,
    SerError,
    WriteBuffer,
};

verus! {

/// A value with a fixed byte layout on the wire.
pub trait Nl: Sized + View {
    /// The bytes that encode `v`.
    spec fn spec_wire(v: Self::V) -> Seq<u8>;

    /// Decoding the bytes of `d` from position `p`: the value and the
    /// position after it, or why it fails.
    spec fn spec_parse(d: Seq<u8>, p: int) -> Result<(Self::V, int), DeError>;

    /// What decoding keeps of a value: `spec_same(a, b)` holds when `a` and
    /// `b` are the same message.
    spec fn spec_same(a: Self::V, b: Self::V) -> bool;

    /// Decoding the bytes of a value gives back the same value and consumes
    /// exactly those bytes, whatever surrounds them.
    proof fn lemma_round_trip(v: Self::V, d: Seq<u8>, p: int)
        requires
            0 <= p,
            p + Self::spec_wire(v).len() <= d.len(),
            d.subrange(p, p + Self::spec_wire(v).len()) == Self::spec_wire(v),
        ensures
            Self::spec_parse(d, p) is Ok,
            Self::spec_parse(d, p)->Ok_0.1 == p + Self::spec_wire(v).len(),
            Self::spec_same(Self::spec_parse(d, p)->Ok_0.0, v),
    ;

    /// The number of bytes `serialize` writes.
    fn size(&self) -> (r: usize)
        requires
            Self::spec_wire(self@).len() <= usize::MAX,
        ensures
            r == Self::spec_wire(self@).len(),
    ;

    /// Appends the bytes of `self`; fails, writing nothing, when they do not fit.
    fn serialize(&self, buf: &mut WriteBuffer) -> (r: Result<(), SerError>)
        requires
            Self::spec_wire(self@).len() <= usize::MAX,
        ensures
            final(buf).capacity() == old(buf).capacity(),
            r is Ok <==> old(buf).has_room(Self::spec_wire(self@).len()),
            r is Ok ==> final(buf).bytes() == old(buf).bytes() + Self::spec_wire(self@),
            r is Err ==> final(buf).bytes() == old(buf).bytes() && r == Err::<(), SerError>(
                SerError::BufferFull {
                    offset: old(buf).bytes().len() as usize,
                    needed: Self::spec_wire(self@).len() as usize,
                },
            ),
    ;

    /// Reads a value at the buffer's position; on failure the position is
    /// left where it was.
    fn deserialize(buf: &mut ReadBuffer) -> (r: Result<Self, DeError>)
        ensures
            final(buf).data() == old(buf).data(),
            match Self::spec_parse(old(buf).data(), old(buf).pos() as int) {
                Ok((v, np)) => r is Ok && r->Ok_0@ == v && final(buf).pos() == np,
                Err(e) => r == Err::<Self, DeError>(e) && final(buf).pos() == old(buf).pos(),
            },
    ;
}

/// The error for fewer than `n` bytes left at `p`.
pub open spec fn truncated(p: int, n: nat) -> DeError {
    DeError::Truncated { offset: p as usize, needed: n as usize }
}

/// Whether `n` bytes are left at `p`.
pub open spec fn has_bytes(d: Seq<u8>, p: int, n: nat) -> bool {
    0 <= p && p + n <= d.len()
}

impl Nl for u8 {
    open spec fn spec_wire(v: u8) -> Seq<u8> {
        seq![v]
    }

    open spec fn spec_parse(d: Seq<u8>, p: int) -> Result<(u8, int), DeError> {
        if has_bytes(d, p, 1) {
            Ok((d[p], p + 1))
        } else {
            Err(truncated(p, 1))
        }
    }

    open spec fn spec_same(a: u8, b: u8) -> bool {
        a == b
    }

    proof fn lemma_round_trip(v: u8, d: Seq<u8>, p: int) {
        assert(d[p] == d.subrange(p, p + 1)[0]);
    }

    fn size(&self) -> (r: usize) {
        1
    }

    fn serialize(&self, buf: &mut WriteBuffer) -> (r: Result<(), SerError>) {
        match buf.reserve(1) {
            Err(e) => Err(e),
            Ok(()) => {
                buf.put_u8(*self);
                Ok(())
            },
        }
    }

    fn deserialize(buf: &mut ReadBuffer) -> (r: Result<u8, DeError>) {
        match buf.require(1) {
            Err(e) => Err(e),
            Ok(()) => Ok(buf.get_u8()),
        }
    }
}

impl Nl for u16 {
    open spec fn spec_wire(v: u16) -> Seq<u8> {
        u16_bytes(v)
    }

    open spec fn spec_parse(d: Seq<u8>, p: int) -> Result<(u16, int), DeError> {
        if has_bytes(d, p, 2) {
            Ok((u16_at(d, p), p + 2))
        } else {
            Err(truncated(p, 2))
        }
    }

    open spec fn spec_same(a: u16, b: u16) -> bool {
        a == b
    }

    proof fn lemma_round_trip(v: u16, d: Seq<u8>, p: int) {
        let w = d.subrange(p, p + 2);
        assert(d[p] == w[0] && d[p + 1] == w[1]);
        lemma_u16_round_trip(v);
    }

    fn size(&self) -> (r: usize) {
        2
    }

    fn serialize(&self, buf: &mut WriteBuffer) -> (r: Result<(), SerError>) {
        match buf.reserve(2) {
            Err(e) => Err(e),
            Ok(()) => {
                buf.put_u16(*self);
                Ok(())
            },
        }
    }

    fn deserialize(buf: &mut ReadBuffer) -> (r: Result<u16, DeError>) {
        match buf.require(2) {
            Err(e) => Err(e),
            Ok(()) => Ok(buf.get_u16()),
        }
    }
}

impl Nl for u32 {
    open spec fn spec_wire(v: u32) -> Seq<u8> {
        u32_bytes(v)
    }

    open spec fn spec_parse(d: Seq<u8>, p: int) -> Result<(u32, int), DeError> {
        if has_bytes(d, p, 4) {
            Ok((u32_at(d, p), p + 4))
        } else {
            Err(truncated(p, 4))
        }
    }

    open spec fn spec_same(a: u32, b: u32) -> bool {
        a == b
    }

    proof fn lemma_round_trip(v: u32, d: Seq<u8>, p: int) {
        let w = d.subrange(p, p + 4);
        assert(d[p] == w[0] && d[p + 1] == w[1] && d[p + 2] == w[2] && d[p + 3] == w[3]);
        lemma_u32_round_trip(v);
    }

    fn size(&self) -> (r: usize) {
        4
    }

    fn serialize(&self, buf: &mut WriteBuffer) -> (r: Result<(), SerError>) {
        match buf.reserve(4) {
            Err(e) => Err(e),
            Ok(()) => {
                buf.put_u32(*self);
                Ok(())
            },
        }
    }

    fn deserialize(buf: &mut ReadBuffer) -> (r: Result<u32, DeError>) {
        match buf.require(4) {
            Err(e) => Err(e),
            Ok(()) => Ok(buf.get_u32()),
        }
    }
}

impl Nl for i32 {
    open spec fn spec_wire(v: i32) -> Seq<u8> {
        i32_bytes(v)
    }

    open spec fn spec_parse(d: Seq<u8>, p: int) -> Result<(i32, int), DeError> {
        if has_bytes(d, p, 4) {
            Ok((i32_at(d, p), p + 4))
        } else {
            Err(truncated(p, 4))
        }
    }

    open spec fn spec_same(a: i32, b: i32) -> bool {
        a == b
    }

    proof fn lemma_round_trip(v: i32, d: Seq<u8>, p: int) {
        let w = d.subrange(p, p + 4);
        assert(d[p] == w[0] && d[p + 1] == w[1] && d[p + 2] == w[2] && d[p + 3] == w[3]);
        lemma_u32_round_trip(v as u32);
        lemma_i32_round_trip(v);
    }

    fn size(&self) -> (r: usize) {
        4
    }

    fn serialize(&self, buf: &mut WriteBuffer) -> (r: Result<(), SerError>) {
        match buf.reserve(4) {
            Err(e) => Err(e),
            Ok(()) => {
                buf.put_i32(*self);
                Ok(())
            },
        }
    }

    fn deserialize(buf: &mut ReadBuffer) -> (r: Result<i32, DeError>) {
        match buf.require(4) {
            Err(e) => Err(e),
            Ok(()) => Ok(buf.get_i32()),
        }
    }
}

} // verus!
