//! The guest's linear memory: a block of bytes whose size is fixed for a run.
//!
//! Host calls name bytes of it by a 32-bit offset and a 32-bit length. They
//! are checked here against the size of the memory, and what a call reads or
//! writes is said over the model `LinearMemory`.

use crate::error::HostError;
use vstd::prelude::*;

verus! {

/// Whether `len` bytes from `offset` on lie inside a memory of `size` bytes.
pub open spec fn in_bounds(offset: int, len: int, size: int) -> bool {
    0 <= offset && 0 <= len && offset + len <= size
}

/// Bytes of the guest's memory that a host call may touch.
#[derive(Clone, Copy, Debug, PartialEq, Eq, Structural)]
pub struct ByteRange {
    pub offset: usize,
    pub len: usize,
}

/// Bytes that a host call puts into the guest's memory.
#[derive(Debug, PartialEq, Eq)]
pub struct MemoryWrite {
    pub offset: usize,
    pub bytes: Vec<u8>,
}

/// The memory `memory` after `bytes` were put at `offset`.
pub open spec fn stored(memory: Seq<u8>, offset: int, bytes: Seq<u8>) -> Seq<u8> {
    Seq::new(
        memory.len(),
        |i: int|
            if offset <= i < offset + bytes.len() {
                bytes[i - offset]
            } else {
                memory[i]
            },
    )
}

/// The error for bytes that do not lie inside the memory.
pub open spec fn out_of_range(offset: int, len: int, size: int) -> HostError {
    HostError::MemoryRange { offset: offset as usize, len: len as usize, size: size as usize }
}

/// Checks the bytes that a guest names against the size of its memory.
pub fn check_range(offset: u32, len: u32, size: usize) -> (r: Result<ByteRange, HostError>)
    ensures
        in_bounds(offset as int, len as int, size as int) ==> r == Ok::<ByteRange, HostError>(
            ByteRange { offset: offset as usize, len: len as usize },
        ),
        !in_bounds(offset as int, len as int, size as int) ==> r == Err::<ByteRange, HostError>(
            out_of_range(offset as int, len as int, size as int),
        ),
{
    let start = offset as usize;
    let count = len as usize;
    if start <= size && count <= size - start {
        Ok(ByteRange { offset: start, len: count })
    } else {
        Err(HostError::MemoryRange { offset: start, len: count, size })
    }
}

/// A linear memory held by the host: the model over which the host calls are
/// specified.
#[derive(Debug)]
pub struct LinearMemory {
    bytes: Vec<u8>,
}

impl View for LinearMemory {
    type V = Seq<u8>;

    closed spec fn view(&self) -> Seq<u8> {
        self.bytes@
    }
}

impl LinearMemory {
    /// A memory of `size` zero bytes.
    pub fn new(size: usize) -> (memory: LinearMemory)
        ensures
            memory@ == Seq::new(size as nat, |i: int| 0u8),
    {
        let bytes = vec![0u8; size];
        assert(bytes@ =~= Seq::new(size as nat, |i: int| 0u8));
        LinearMemory { bytes }
    }

    /// A memory that holds the given bytes.
    pub fn from_bytes(bytes: Vec<u8>) -> (memory: LinearMemory)
        ensures
            memory@ == bytes@,
    {
        LinearMemory { bytes }
    }

    /// The size of the memory in bytes.
    pub fn size(&self) -> (size: usize)
        ensures
            size == self@.len(),
    {
        self.bytes.len()
    }

    /// The bytes of the memory.
    pub fn as_slice(&self) -> (bytes: &[u8])
        ensures
            bytes@ == self@,
    {
        self.bytes.as_slice()
    }

    /// Copies the bytes of a range out of the memory.
    pub fn load(&self, range: &ByteRange) -> (r: Result<Vec<u8>, HostError>)
        ensures
            match r {
                Ok(bytes) => {
                    &&& in_bounds(range.offset as int, range.len as int, self@.len() as int)
                    &&& bytes@ == self@.subrange(
                        range.offset as int,
                        range.offset + range.len,
                    )
                },
                Err(e) => {
                    &&& !in_bounds(range.offset as int, range.len as int, self@.len() as int)
                    &&& e == out_of_range(
                        range.offset as int,
                        range.len as int,
                        self@.len() as int,
                    )
                },
            },
    {
        let size = self.bytes.len();
        if range.offset > size || range.len > size - range.offset {
            return Err(
                HostError::MemoryRange { offset: range.offset, len: range.len, size },
            );
        }
        let mut bytes: Vec<u8> = Vec::new();
        let mut i: usize = 0;
        while i < range.len
            invariant
                i <= range.len,
                size == self.bytes@.len(),
                range.offset + range.len <= size,
                bytes@ == self.bytes@.subrange(range.offset as int, range.offset + i),
            decreases range.len - i,
        {
            bytes.push(self.bytes[range.offset + i]);
            assert(bytes@ =~= self.bytes@.subrange(range.offset as int, range.offset + i + 1));
            i = i + 1;
        }
        Ok(bytes)
    }

    /// Puts the bytes of a write into the memory. A write that does not lie
    /// inside the memory is refused as a whole: no byte of it is stored.
    pub fn store(&mut self, write: &MemoryWrite) -> (r: Result<(), HostError>)
        ensures
            final(self)@.len() == old(self)@.len(),
            match r {
                Ok(_) => {
                    &&& in_bounds(
                        write.offset as int,
                        write.bytes@.len() as int,
                        old(self)@.len() as int,
                    )
                    &&& final(self)@ == stored(old(self)@, write.offset as int, write.bytes@)
                },
                Err(e) => {
                    &&& !in_bounds(
                        write.offset as int,
                        write.bytes@.len() as int,
                        old(self)@.len() as int,
                    )
                    &&& e == out_of_range(
                        write.offset as int,
                        write.bytes@.len() as int,
                        old(self)@.len() as int,
                    )
                    &&& final(self)@ == old(self)@
                },
            },
    {
        let size = self.bytes.len();
        let len = write.bytes.len();
        if write.offset > size || len > size - write.offset {
            return Err(HostError::MemoryRange { offset: write.offset, len, size });
        }
        let ghost before = self.bytes@;
        let mut i: usize = 0;
        while i < len
            invariant
                i <= len,
                len == write.bytes@.len(),
                size == before.len(),
                write.offset + len <= size,
                self.bytes@.len() == before.len(),
                self.bytes@ == stored(before, write.offset as int, write.bytes@.take(i as int)),
            decreases len - i,
        {
            self.bytes.set(write.offset + i, write.bytes[i]);
            assert(self.bytes@ =~= stored(
                before,
                write.offset as int,
                write.bytes@.take(i as int + 1),
            ));
            i = i + 1;
        }
        assert(write.bytes@.take(len as int) =~= write.bytes@);
        Ok(())
    }
}

/// A stored write is read back unchanged, and every byte outside it is the
/// byte that was there before.
pub proof fn lemma_stored(memory: Seq<u8>, offset: int, bytes: Seq<u8>)
    requires
        in_bounds(offset, bytes.len() as int, memory.len() as int),
    ensures
        stored(memory, offset, bytes).len() == memory.len(),
        stored(memory, offset, bytes).subrange(offset, offset + bytes.len()) == bytes,
        forall|i: int|
            0 <= i < memory.len() && !(offset <= i < offset + bytes.len()) ==> stored(
                memory,
                offset,
                bytes,
            )[i] == memory[i],
{
    assert(stored(memory, offset, bytes).subrange(offset, offset + bytes.len()) =~= bytes);
}

} // verus!
