//! A cursor over bytes in memory that reads integers in a fixed byte order.

use byteorder::ByteOrder;
use vstd::prelude::*;
use vstd::slice::slice_subrange;

use crate::error::BundleError;

verus! {

/// The order in which the bytes of a multi-byte integer follow each other.
#[derive(Clone, Copy, Debug, PartialEq, Eq, Structural)]
pub enum Order {
    /// The most significant byte comes first.
    BigEndian,
    /// The least significant byte comes first.
    LittleEndian,
}

/// The number that the first two bytes of `b` spell, high byte first.
pub open spec fn be_u16(b: Seq<u8>) -> u16 {
    (b[0] as int * 0x100 + b[1] as int) as u16
}

/// The number that the first two bytes of `b` spell, low byte first.
pub open spec fn le_u16(b: Seq<u8>) -> u16 {
    (b[1] as int * 0x100 + b[0] as int) as u16
}

/// The number that the first four bytes of `b` spell, high byte first.
pub open spec fn be_u32(b: Seq<u8>) -> u32 {
    (b[0] as int * 0x100_0000 + b[1] as int * 0x1_0000 + b[2] as int * 0x100 + b[3] as int) as u32
}

/// The number that the first four bytes of `b` spell, low byte first.
pub open spec fn le_u32(b: Seq<u8>) -> u32 {
    (b[3] as int * 0x100_0000 + b[2] as int * 0x1_0000 + b[1] as int * 0x100 + b[0] as int) as u32
}

/// The 16-bit number that the first two bytes of `b` spell in `order`.
pub open spec fn u16_in(order: Order, b: Seq<u8>) -> u16 {
    match order {
        Order::BigEndian => be_u16(b),
        Order::LittleEndian => le_u16(b),
    }
}

/// The 32-bit number that the first four bytes of `b` spell in `order`.
pub open spec fn u32_in(order: Order, b: Seq<u8>) -> u32 {
    match order {
        Order::BigEndian => be_u32(b),
        Order::LittleEndian => le_u32(b),
    }
}

/// Whether `n` bytes of `bytes` start at offset `at`.
pub open spec fn holds(bytes: Seq<u8>, at: int, n: int) -> bool {
    0 <= at && 0 <= n && at + n <= bytes.len()
}

/// The 16-bit number at offset `at` of `bytes`, read in `order`.
pub open spec fn u16_at(bytes: Seq<u8>, order: Order, at: int) -> u16 {
    u16_in(order, bytes.subrange(at, at + 2))
}

/// The 32-bit number at offset `at` of `bytes`, read in `order`.
pub open spec fn u32_at(bytes: Seq<u8>, order: Order, at: int) -> u32 {
    u32_in(order, bytes.subrange(at, at + 4))
}

/// Whether the `n` bytes at offset `at` of `a` are the `n` bytes at that
/// offset of `b`, in reverse.
pub open spec fn mirrored(a: Seq<u8>, b: Seq<u8>, at: int, n: int) -> bool {
    a.subrange(at, at + n) == b.subrange(at, at + n).reverse()
}

/// A number reads the same high byte first from some bytes and low byte first
/// from their reverse.
pub proof fn lemma_mirrored_reads(a: Seq<u8>, b: Seq<u8>, at: int)
    ensures
        holds(a, at, 2) && holds(b, at, 2) && mirrored(a, b, at, 2) ==> u16_at(
            a,
            Order::BigEndian,
            at,
        ) == u16_at(b, Order::LittleEndian, at),
        holds(a, at, 4) && holds(b, at, 4) && mirrored(a, b, at, 4) ==> u32_at(
            a,
            Order::BigEndian,
            at,
        ) == u32_at(b, Order::LittleEndian, at),
{
    if holds(a, at, 2) && holds(b, at, 2) && mirrored(a, b, at, 2) {
        let x = a.subrange(at, at + 2);
        let y = b.subrange(at, at + 2);
        assert(x[0] == y.reverse()[0] && x[1] == y.reverse()[1]);
    }
    if holds(a, at, 4) && holds(b, at, 4) && mirrored(a, b, at, 4) {
        let x = a.subrange(at, at + 4);
        let y = b.subrange(at, at + 4);
        assert(x[0] == y.reverse()[0] && x[1] == y.reverse()[1] && x[2] == y.reverse()[2] && x[3]
            == y.reverse()[3]);
    }
}

/// Trusted: `byteorder::BigEndian::read_u16` returns the number that the first
/// two bytes of `buf` spell, high byte first. It panics on a shorter slice,
/// which the precondition keeps away.
#[verifier::external_body]
fn read_u16_be(buf: &[u8]) -> (r: u16)
    requires
        buf@.len() >= 2,
    ensures
        r == be_u16(buf@),
{
    byteorder::BigEndian::read_u16(buf)
}

/// Trusted: `byteorder::LittleEndian::read_u16` returns the number that the
/// first two bytes of `buf` spell, low byte first. It panics on a shorter
/// slice, which the precondition keeps away.
#[verifier::external_body]
fn read_u16_le(buf: &[u8]) -> (r: u16)
    requires
        buf@.len() >= 2,
    ensures
        r == le_u16(buf@),
{
    byteorder::LittleEndian::read_u16(buf)
}

/// Trusted: `byteorder::BigEndian::read_u32` returns the number that the first
/// four bytes of `buf` spell, high byte first. It panics on a shorter slice,
/// which the precondition keeps away.
#[verifier::external_body]
fn read_u32_be(buf: &[u8]) -> (r: u32)
    requires
        buf@.len() >= 4,
    ensures
        r == be_u32(buf@),
{
    byteorder::BigEndian::read_u32(buf)
}

/// Trusted: `byteorder::LittleEndian::read_u32` returns the number that the
/// first four bytes of `buf` spell, low byte first. It panics on a shorter
/// slice, which the precondition keeps away.
#[verifier::external_body]
fn read_u32_le(buf: &[u8]) -> (r: u32)
    requires
        buf@.len() >= 4,
    ensures
        r == le_u32(buf@),
{
    byteorder::LittleEndian::read_u32(buf)
}

/// What a reader is, as far as contracts are concerned.
pub struct ReaderView {
    /// All the bytes of the source, from its start.
    pub bytes: Seq<u8>,
    /// The offset of the next byte to be read. It may lie behind the end.
    pub position: nat,
    /// The order of every multi-byte read.
    pub order: Order,
}

impl ReaderView {
    /// Whether `n` more bytes can be read.
    pub open spec fn has(self, n: nat) -> bool {
        self.position + n <= self.bytes.len()
    }

    /// The next `n` bytes.
    pub open spec fn next(self, n: nat) -> Seq<u8> {
        self.bytes.subrange(self.position as int, self.position as int + n as int)
    }

    /// The same reader with its cursor at `position`.
    pub open spec fn at(self, position: nat) -> ReaderView {
        ReaderView { position, ..self }
    }

    /// The same reader after `n` bytes were read.
    pub open spec fn after(self, n: nat) -> ReaderView {
        self.at(self.position + n)
    }
}

/// A byte source with a cursor and a byte order that is chosen once, when the
/// reader is made, and holds for every multi-byte read.
#[derive(Clone, Debug)]
pub struct OrderedReader {
    bytes: Vec<u8>,
    pos: u64,
    order: Order,
}

impl View for OrderedReader {
    type V = ReaderView;

    closed spec fn view(&self) -> ReaderView {
        ReaderView { bytes: self.bytes@, position: self.pos as nat, order: self.order }
    }
}

impl OrderedReader {
    /// A reader over `reader`'s bytes, with its cursor at their start.
    pub fn wrap(reader: Vec<u8>, order: Order) -> (r: OrderedReader)
        ensures
            r@ == (ReaderView { bytes: reader@, position: 0, order }),
    {
        OrderedReader { bytes: reader, pos: 0, order }
    }

    /// The order of every multi-byte read.
    pub fn order(&self) -> (r: Order)
        ensures
            r == self@.order,
    {
        self.order
    }

    /// The offset of the next byte to be read.
    pub fn position(&self) -> (r: u64)
        ensures
            r == self@.position,
    {
        self.pos
    }

    /// Moves the cursor to the offset `pos`, counted from the start. An offset
    /// behind the end is taken; the next read then fails.
    pub fn seek(&mut self, pos: u64)
        ensures
            final(self)@ == old(self)@.at(pos as nat),
    {
        self.pos = pos;
    }

    /// The next `n` bytes, if there are that many. The cursor stays.
    fn peek(&self, n: usize) -> (r: Option<&[u8]>)
        ensures
            match r {
                Some(buf) => self@.has(n as nat) && buf@ == self@.next(n as nat)
                    && self@.position + n <= usize::MAX,
                None => !self@.has(n as nat),
            },
    {
        let len = self.bytes.len();
        if self.pos > len as u64 || len as u64 - self.pos < n as u64 {
            return None;
        }
        let start = self.pos as usize;
        Some(slice_subrange(self.bytes.as_slice(), start, start + n))
    }

    /// Reads one byte and steps over it.
    pub fn read_u8(&mut self) -> (r: Result<u8, BundleError>)
        ensures
            match r {
                Ok(v) => old(self)@.has(1) && v == old(self)@.bytes[old(self)@.position as int]
                    && final(self)@ == old(self)@.after(1),
                Err(e) => e == BundleError::UnexpectedEof && !old(self)@.has(1) && final(self)@
                    == old(self)@,
            },
    {
        let v = match self.peek(1) {
            Some(buf) => buf[0],
            None => return Err(BundleError::UnexpectedEof),
        };
        self.pos = self.pos + 1;
        Ok(v)
    }

    /// Reads two bytes as one number in the reader's order and steps over them.
    pub fn read_u16(&mut self) -> (r: Result<u16, BundleError>)
        ensures
            match r {
                Ok(v) => old(self)@.has(2) && v == u16_in(old(self)@.order, old(self)@.next(2))
                    && final(self)@ == old(self)@.after(2),
                Err(e) => e == BundleError::UnexpectedEof && !old(self)@.has(2) && final(self)@
                    == old(self)@,
            },
    {
        let v = match self.peek(2) {
            Some(buf) => match self.order {
                Order::BigEndian => read_u16_be(buf),
                Order::LittleEndian => read_u16_le(buf),
            },
            None => return Err(BundleError::UnexpectedEof),
        };
        self.pos = self.pos + 2;
        Ok(v)
    }

    /// Reads four bytes as one number in the reader's order and steps over
    /// them.
    pub fn read_u32(&mut self) -> (r: Result<u32, BundleError>)
        ensures
            match r {
                Ok(v) => old(self)@.has(4) && v == u32_in(old(self)@.order, old(self)@.next(4))
                    && final(self)@ == old(self)@.after(4),
                Err(e) => e == BundleError::UnexpectedEof && !old(self)@.has(4) && final(self)@
                    == old(self)@,
            },
    {
        let v = match self.peek(4) {
            Some(buf) => match self.order {
                Order::BigEndian => read_u32_be(buf),
                Order::LittleEndian => read_u32_le(buf),
            },
            None => return Err(BundleError::UnexpectedEof),
        };
        self.pos = self.pos + 4;
        Ok(v)
    }

    /// Moves the cursor to the offset `pos` and reads one byte there.
    pub fn read_u8_from(&mut self, pos: u64) -> (r: Result<u8, BundleError>)
        ensures
            final(self)@.bytes == old(self)@.bytes,
            final(self)@.order == old(self)@.order,
            match r {
                Ok(v) => holds(old(self)@.bytes, pos as int, 1) && v == old(self)@.bytes[pos as int]
                    && final(self)@.position == pos + 1,
                Err(e) => e == BundleError::UnexpectedEof && !holds(old(self)@.bytes, pos as int, 1)
                    && final(self)@.position == pos,
            },
    {
        self.seek(pos);
        self.read_u8()
    }

    /// Moves the cursor to the offset `pos` and reads two bytes there as one
    /// number in the reader's order.
    pub fn read_u16_from(&mut self, pos: u64) -> (r: Result<u16, BundleError>)
        ensures
            final(self)@.bytes == old(self)@.bytes,
            final(self)@.order == old(self)@.order,
            match r {
                Ok(v) => holds(old(self)@.bytes, pos as int, 2) && v == u16_at(
                    old(self)@.bytes,
                    old(self)@.order,
                    pos as int,
                ) && final(self)@.position == pos + 2,
                Err(e) => e == BundleError::UnexpectedEof && !holds(old(self)@.bytes, pos as int, 2)
                    && final(self)@.position == pos,
            },
    {
        self.seek(pos);
        self.read_u16()
    }

    /// Moves the cursor to the offset `pos` and reads four bytes there as one
    /// number in the reader's order.
    pub fn read_u32_from(&mut self, pos: u64) -> (r: Result<u32, BundleError>)
        ensures
            final(self)@.bytes == old(self)@.bytes,
            final(self)@.order == old(self)@.order,
            match r {
                Ok(v) => holds(old(self)@.bytes, pos as int, 4) && v == u32_at(
                    old(self)@.bytes,
                    old(self)@.order,
                    pos as int,
                ) && final(self)@.position == pos + 4,
                Err(e) => e == BundleError::UnexpectedEof && !holds(old(self)@.bytes, pos as int, 4)
                    && final(self)@.position == pos,
            },
    {
        self.seek(pos);
        self.read_u32()
    }
}

} // verus!
