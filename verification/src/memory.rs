//! Bounds-checked access to a guest's linear memory.
//!
//! Every offset and length comes from the guest and is held against the
//! current extent of the memory before a byte is read or written.

use byteorder::ByteOrder;
use byteorder::LittleEndian;
use vstd::prelude::*;

verus! {

/// An access that does not lie within the guest's memory.
#[derive(Clone, Copy, Debug, PartialEq, Eq, Structural)]
pub enum MemoryFault {
    /// The range starts below zero, has a negative length, or ends beyond the
    /// memory's extent.
    OutOfRange,
}

/// Whether `length` bytes from `offset` lie within a memory of `extent` bytes.
pub open spec fn in_range(extent: nat, offset: i32, length: int) -> bool {
    0 <= offset && 0 <= length && offset + length <= extent
}

/// The four bytes of `n`, least significant first.
pub open spec fn le_bytes(n: u32) -> Seq<u8> {
    seq![
        (n & 0xff) as u8,
        ((n >> 8) & 0xff) as u8,
        ((n >> 16) & 0xff) as u8,
        ((n >> 24) & 0xff) as u8,
    ]
}

/// `base` with the bytes from `at` on replaced by `patch`.
pub open spec fn overlay(base: Seq<u8>, at: int, patch: Seq<u8>) -> Seq<u8> {
    base.subrange(0, at) + patch + base.subrange(at + patch.len(), base.len() as int)
}

/// Calls `byteorder::LittleEndian::write_u32` on the part of `buf` that starts
/// at `at`. That function copies the little-endian bytes of `n` over the first
/// four bytes of the slice it is given and leaves the rest alone; it panics on
/// a slice shorter than four bytes, which the precondition rules out.
#[verifier::external_body]
fn le_store_u32(buf: &mut [u8], at: usize, n: u32)
    requires
        at + 4 <= old(buf)@.len(),
    ensures
        final(buf)@ == overlay(old(buf)@, at as int, le_bytes(n)),
{
    LittleEndian::write_u32(&mut buf[at..], n)
}

/// Calls `byteorder::LittleEndian::write_i32` on the part of `buf` that starts
/// at `at`. That function writes the two's complement bit pattern of `n` as
/// `write_u32` writes an unsigned number, and panics on a slice shorter than
/// four bytes, which the precondition rules out.
#[verifier::external_body]
fn le_store_i32(buf: &mut [u8], at: usize, n: i32)
    requires
        at + 4 <= old(buf)@.len(),
    ensures
        final(buf)@ == overlay(old(buf)@, at as int, le_bytes(n as u32)),
{
    LittleEndian::write_i32(&mut buf[at..], n)
}

/// Writing into guest memory.
pub trait WriteMem: View<V = Seq<u8>> {
    /// Stores `value` at `index`, least significant byte first. Fails, and
    /// writes nothing, unless the four bytes lie within the memory.
    fn write_i32(&mut self, index: i32, value: i32) -> (r: Result<(), MemoryFault>)
        ensures
            r is Ok <==> in_range(old(self)@.len(), index, 4),
            r is Ok ==> final(self)@ == overlay(old(self)@, index as int, le_bytes(value as u32)),
            r is Err ==> final(self)@ == old(self)@,
    ;

    /// Stores `value` at `index`, least significant byte first. Fails, and
    /// writes nothing, unless the four bytes lie within the memory.
    fn write_u32(&mut self, index: i32, value: u32) -> (r: Result<(), MemoryFault>)
        ensures
            r is Ok <==> in_range(old(self)@.len(), index, 4),
            r is Ok ==> final(self)@ == overlay(old(self)@, index as int, le_bytes(value)),
            r is Err ==> final(self)@ == old(self)@,
    ;

    /// Copies `bytes` to `index` and returns how many were written, which is
    /// all of them. Fails, and writes nothing, unless they all fit.
    fn write(&mut self, index: i32, bytes: &[u8]) -> (r: Result<usize, MemoryFault>)
        ensures
            r is Ok <==> in_range(old(self)@.len(), index, bytes@.len() as int),
            r is Ok ==> r->Ok_0 == bytes@.len() && final(self)@ == overlay(
                old(self)@,
                index as int,
                bytes@,
            ),
            r is Err ==> final(self)@ == old(self)@,
    ;
}

/// Reading from guest memory.
pub trait ReadMem: View<V = Seq<u8>> {
    /// Returns the `amount` bytes that start at `index`, with their count.
    /// Fails unless the whole range lies within the memory. The memory is
    /// left as it was.
    fn read(&mut self, index: i32, amount: i32) -> (r: Result<(usize, Vec<u8>), MemoryFault>)
        ensures
            final(self)@ == old(self)@,
            r is Ok <==> in_range(old(self)@.len(), index, amount as int),
            r is Ok ==> r->Ok_0.0 == amount && r->Ok_0.1@ == old(self)@.subrange(
                index as int,
                index + amount,
            ),
    ;
}

/// The guest's linear memory as one host call sees it.
///
/// The view borrows the memory's bytes. Each operation states what the view
/// holds afterwards and that it still borrows the same bytes, so that whoever
/// lent them learns what was written once the view is given up.
pub struct GuestMemoryView<'a> {
    /// The bytes of the memory, borrowed for the length of the call.
    pub data: &'a mut [u8],
}

impl<'a> View for GuestMemoryView<'a> {
    type V = Seq<u8>;

    open spec fn view(&self) -> Seq<u8> {
        self.data@
    }
}

impl<'a> GuestMemoryView<'a> {
    /// A view over the whole of `data`. What the view holds when it is given
    /// up is what `data` holds from then on.
    pub fn new(data: &'a mut [u8]) -> (view: Self)
        ensures
            view@ == old(data)@,
            final(view.data)@ == final(data)@,
    {
        GuestMemoryView { data }
    }

    /// The memory's extent in bytes.
    pub fn len(&self) -> (n: usize)
        ensures
            n == self@.len(),
    {
        self.data.len()
    }

    /// Whether `length` bytes from `offset` lie within the memory.
    pub fn holds(&self, offset: i32, length: usize) -> (b: bool)
        ensures
            b == in_range(self@.len(), offset, length as int),
    {
        let extent: usize = self.data.len();
        offset >= 0 && length <= extent && offset as usize <= extent - length
    }
}

impl<'a> WriteMem for GuestMemoryView<'a> {
    fn write_i32(&mut self, index: i32, value: i32) -> (r: Result<(), MemoryFault>)
        ensures
            final(final(self).data)@ == final(old(self).data)@,
    {
        if self.holds(index, 4) {
            le_store_i32(self.data, index as usize, value);
            Ok(())
        } else {
            Err(MemoryFault::OutOfRange)
        }
    }

    fn write_u32(&mut self, index: i32, value: u32) -> (r: Result<(), MemoryFault>)
        ensures
            final(final(self).data)@ == final(old(self).data)@,
    {
        if self.holds(index, 4) {
            le_store_u32(self.data, index as usize, value);
            Ok(())
        } else {
            Err(MemoryFault::OutOfRange)
        }
    }

    fn write(&mut self, index: i32, bytes: &[u8]) -> (r: Result<usize, MemoryFault>)
        ensures
            final(final(self).data)@ == final(old(self).data)@,
    {
        if !self.holds(index, bytes.len()) {
            return Err(MemoryFault::OutOfRange);
        }
        let start: usize = index as usize;
        let count: usize = bytes.len();
        let extent: usize = self.data.len();
        let mut i: usize = 0;
        while i < count
            invariant
                i <= count,
                count == bytes@.len(),
                start + count <= extent,
                extent == self@.len(),
                self@.len() == old(self)@.len(),
                self@ == overlay(old(self)@, start as int, bytes@.subrange(0, i as int)),
                final(self.data)@ == final(old(self).data)@,
            decreases count - i,
        {
            self.data[start + i] = bytes[i];
            i = i + 1;
            assert(self@ =~= overlay(old(self)@, start as int, bytes@.subrange(0, i as int)));
        }
        assert(bytes@.subrange(0, count as int) =~= bytes@);
        Ok(count)
    }
}

impl<'a> ReadMem for GuestMemoryView<'a> {
    fn read(&mut self, index: i32, amount: i32) -> (r: Result<(usize, Vec<u8>), MemoryFault>)
        ensures
            final(final(self).data)@ == final(old(self).data)@,
    {
        if amount < 0 || !self.holds(index, amount as usize) {
            return Err(MemoryFault::OutOfRange);
        }
        let start: usize = index as usize;
        let count: usize = amount as usize;
        let extent: usize = self.data.len();
        let mut buf: Vec<u8> = Vec::with_capacity(count);
        let mut i: usize = 0;
        while i < count
            invariant
                i <= count,
                start + count <= extent,
                extent == self@.len(),
                self@ == old(self)@,
                buf@ == self@.subrange(start as int, start + i),
            decreases count - i,
        {
            buf.push(self.data[start + i]);
            i = i + 1;
            assert(buf@ =~= self@.subrange(start as int, start + i));
        }
        Ok((count, buf))
    }
}

} // verus!
