//! Byte buffers that the codec writes into and reads from, and the
//! little-endian layout of the scalar fields.

use vstd::prelude::*;

verus! {

/// Why an encode call failed.
#[derive(Debug, Clone, Copy, PartialEq, Eq, Structural)]
pub enum SerError {
    /// The target buffer has no room for the bytes at `offset` onwards.
    BufferFull { offset: usize, needed: usize },
}

/// Why a decode call failed.
#[derive(Debug, Clone, Copy, PartialEq, Eq, Structural)]
pub enum DeError {
    /// Fewer than `needed` bytes are left at `offset`.
    Truncated { offset: usize, needed: usize },
    /// The field at `offset` holds `code`, which its closed enumeration lacks.
    UnknownCode { offset: usize, code: u32 },
}

/// The two little-endian bytes of `v`.
pub open spec fn u16_bytes(v: u16) -> Seq<u8> {
    seq![(v & 0xff) as u8, (v >> 8u16) as u8]
}

/// The four little-endian bytes of `v`.
pub open spec fn u32_bytes(v: u32) -> Seq<u8> {
    seq![(v & 0xff) as u8, ((v >> 8u32) & 0xff) as u8, ((v >> 16u32) & 0xff) as u8, (v >> 24u32) as u8]
}

/// The four bytes of `v` in two's complement, little-endian.
pub open spec fn i32_bytes(v: i32) -> Seq<u8> {
    u32_bytes(v as u32)
}

/// The `u16` whose little-endian bytes are `b0, b1`.
pub open spec fn u16_of(b0: u8, b1: u8) -> u16 {
    (b0 as u16) | ((b1 as u16) << 8u16)
}

/// The `u32` whose little-endian bytes are `b0 .. b3`.
pub open spec fn u32_of(b0: u8, b1: u8, b2: u8, b3: u8) -> u32 {
    (b0 as u32) | ((b1 as u32) << 8u32) | ((b2 as u32) << 16u32) | ((b3 as u32) << 24u32)
}

/// The `u16` stored little-endian at `p` in `d`.
pub open spec fn u16_at(d: Seq<u8>, p: int) -> u16 {
    u16_of(d[p], d[p + 1])
}

/// The `u32` stored little-endian at `p` in `d`.
pub open spec fn u32_at(d: Seq<u8>, p: int) -> u32 {
    u32_of(d[p], d[p + 1], d[p + 2], d[p + 3])
}

/// The `i32` stored little-endian at `p` in `d`.
pub open spec fn i32_at(d: Seq<u8>, p: int) -> i32 {
    u32_at(d, p) as i32
}

pub proof fn lemma_u16_round_trip(v: u16)
    ensures
        u16_of((v & 0xff) as u8, (v >> 8u16) as u8) == v,
{
    assert(((((v & 0xff) as u8) as u16) | ((((v >> 8u16) as u8) as u16) << 8u16)) == v)
        by (bit_vector);
}

pub proof fn lemma_u32_round_trip(v: u32)
    ensures
        u32_of(
            (v & 0xff) as u8,
            ((v >> 8u32) & 0xff) as u8,
            ((v >> 16u32) & 0xff) as u8,
            (v >> 24u32) as u8,
        ) == v,
{
    assert(((((v & 0xff) as u8) as u32) | (((((v >> 8u32) & 0xff) as u8) as u32) << 8u32) | (
    ((((v >> 16u32) & 0xff) as u8) as u32) << 16u32) | ((((v >> 24u32) as u8) as u32) << 24u32))
        == v) by (bit_vector);
}

pub proof fn lemma_i32_round_trip(v: i32)
    ensures
        (v as u32) as i32 == v,
{
    assert((v as u32) as i32 == v) by (bit_vector);
}

/// A bounded output buffer: the bytes written so far, and how many it may hold.
pub struct WriteBuffer {
    data: Vec<u8>,
    capacity: usize,
}

impl WriteBuffer {
    /// The bytes written so far.
    pub closed spec fn bytes(&self) -> Seq<u8> {
        self.data@
    }

    /// The number of bytes the buffer may hold.
    pub closed spec fn capacity(&self) -> nat {
        self.capacity as nat
    }

    /// Whether `n` more bytes fit.
    pub open spec fn has_room(&self, n: nat) -> bool {
        self.bytes().len() + n <= self.capacity()
    }

    /// An empty buffer that holds at most `capacity` bytes.
    pub fn new_sized(capacity: usize) -> (r: WriteBuffer)
        ensures
            r.bytes() == Seq::<u8>::empty(),
            r.capacity() == capacity,
    {
        WriteBuffer { data: Vec::new(), capacity }
    }

    /// An empty buffer bounded only by the address space.
    pub fn new_growable() -> (r: WriteBuffer)
        ensures
            r.bytes() == Seq::<u8>::empty(),
            r.capacity() == usize::MAX,
    {
        WriteBuffer { data: Vec::new(), capacity: usize::MAX }
    }

    /// The bytes written so far.
    pub fn as_bytes(&self) -> (r: &[u8])
        ensures
            r@ == self.bytes(),
    {
        self.data.as_slice()
    }

    /// Consumes the buffer and hands back the bytes written.
    pub fn into_bytes(self) -> (r: Vec<u8>)
        ensures
            r@ == self.bytes(),
    {
        self.data
    }

    /// The number of bytes written so far.
    pub fn len(&self) -> (r: usize)
        ensures
            r == self.bytes().len(),
    {
        self.data.len()
    }

    /// Fails, leaving the buffer as it is, unless `n` more bytes fit.
    pub fn reserve(&self, n: usize) -> (r: Result<(), SerError>)
        ensures
            r is Ok <==> self.has_room(n as nat),
            r is Err ==> r == Err::<(), SerError>(
                SerError::BufferFull { offset: self.bytes().len() as usize, needed: n },
            ),
    {
        if n <= self.capacity && self.data.len() <= self.capacity - n {
            Ok(())
        } else {
            Err(SerError::BufferFull { offset: self.data.len(), needed: n })
        }
    }

    pub fn put_u8(&mut self, v: u8)
        requires
            old(self).has_room(1),
        ensures
            final(self).bytes() == old(self).bytes().push(v),
            final(self).capacity() == old(self).capacity(),
    {
        self.data.push(v);
    }

    pub fn put_u16(&mut self, v: u16)
        requires
            old(self).has_room(2),
        ensures
            final(self).bytes() == old(self).bytes() + u16_bytes(v),
            final(self).capacity() == old(self).capacity(),
    {
        self.data.push((v & 0xff) as u8);
        self.data.push((v >> 8u16) as u8);
        assert(self.data@ =~= old(self).bytes() + u16_bytes(v));
    }

    pub fn put_u32(&mut self, v: u32)
        requires
            old(self).has_room(4),
        ensures
            final(self).bytes() == old(self).bytes() + u32_bytes(v),
            final(self).capacity() == old(self).capacity(),
    {
        self.data.push((v & 0xff) as u8);
        self.data.push(((v >> 8u32) & 0xff) as u8);
        self.data.push(((v >> 16u32) & 0xff) as u8);
        self.data.push((v >> 24u32) as u8);
        assert(self.data@ =~= old(self).bytes() + u32_bytes(v));
    }

    pub fn put_i32(&mut self, v: i32)
        requires
            old(self).has_room(4),
        ensures
            final(self).bytes() == old(self).bytes() + i32_bytes(v),
            final(self).capacity() == old(self).capacity(),
    {
        self.put_u32(v as u32);
    }
}

/// An input buffer: the bytes received and the position of the next read.
pub struct ReadBuffer {
    data: Vec<u8>,
    pos: usize,
}

impl ReadBuffer {
    /// All bytes of the buffer, read or not.
    pub closed spec fn data(&self) -> Seq<u8> {
        self.data@
    }

    /// The position of the next read.
    pub closed spec fn pos(&self) -> nat {
        self.pos as nat
    }

    /// A reader positioned at the first byte of `data`.
    pub fn new(data: Vec<u8>) -> (r: ReadBuffer)
        ensures
            r.data() == data@,
            r.pos() == 0,
    {
        ReadBuffer { data, pos: 0 }
    }

    /// The position of the next read.
    pub fn position(&self) -> (r: usize)
        ensures
            r == self.pos(),
    {
        self.pos
    }

    /// Whether every byte has been read.
    pub fn at_end(&self) -> (r: bool)
        ensures
            r == (self.pos() >= self.data().len()),
    {
        self.pos >= self.data.len()
    }

    /// Fails unless `n` unread bytes remain.
    pub fn require(&self, n: usize) -> (r: Result<(), DeError>)
        ensures
            r is Ok <==> self.pos() + n <= self.data().len(),
            self.data().len() <= usize::MAX,
            r is Err ==> r == Err::<(), DeError>(
                DeError::Truncated { offset: self.pos() as usize, needed: n },
            ),
    {
        if self.pos <= self.data.len() && n <= self.data.len() - self.pos {
            Ok(())
        } else {
            Err(DeError::Truncated { offset: self.pos, needed: n })
        }
    }

    /// Moves the read position back to `to`, as after a failed decode.
    pub fn rewind(&mut self, to: usize)
        requires
            to <= old(self).data().len(),
        ensures
            final(self).pos() == to,
            final(self).data() == old(self).data(),
    {
        self.pos = to;
    }

    pub fn get_u8(&mut self) -> (r: u8)
        requires
            old(self).pos() + 1 <= old(self).data().len(),
        ensures
            r == old(self).data()[old(self).pos() as int],
            final(self).pos() == old(self).pos() + 1,
            final(self).data() == old(self).data(),
    {
        let v = self.data[self.pos];
        assert(self.pos < self.data.len());
        self.pos = self.pos + 1;
        v
    }

    pub fn get_u16(&mut self) -> (r: u16)
        requires
            old(self).pos() + 2 <= old(self).data().len(),
        ensures
            r == u16_at(old(self).data(), old(self).pos() as int),
            final(self).pos() == old(self).pos() + 2,
            final(self).data() == old(self).data(),
    {
        let b0 = self.get_u8();
        let b1 = self.get_u8();
        (b0 as u16) | ((b1 as u16) << 8u16)
    }

    pub fn get_u32(&mut self) -> (r: u32)
        requires
            old(self).pos() + 4 <= old(self).data().len(),
        ensures
            r == u32_at(old(self).data(), old(self).pos() as int),
            final(self).pos() == old(self).pos() + 4,
            final(self).data() == old(self).data(),
    {
        let b0 = self.get_u8();
        let b1 = self.get_u8();
        let b2 = self.get_u8();
        let b3 = self.get_u8();
        (b0 as u32) | ((b1 as u32) << 8u32) | ((b2 as u32) << 16u32) | ((b3 as u32) << 24u32)
    }

    pub fn get_i32(&mut self) -> (r: i32)
        requires
            old(self).pos() + 4 <= old(self).data().len(),
        ensures
            r == i32_at(old(self).data(), old(self).pos() as int),
            final(self).pos() == old(self).pos() + 4,
            final(self).data() == old(self).data(),
    {
        self.get_u32() as i32
    }
}

} // verus!
