//! Linear memories as byte sequences, and the access contract every engine's memory meets.

use vstd::prelude::*;

use crate::engine::{memory_contents, wasmi_alloc, wasmi_get_into, wasmi_set};
use crate::error::Error;

verus! {

/// Size in bytes of one page of linear memory.
pub const PAGE_SIZE: u32 = 65536;

/// Largest number of pages a linear memory can have (4 GiB in total).
pub const MAX_PAGES: u32 = 65536;

/// Whether `[offset, offset + len)` lies within a memory of `size` bytes.
pub open spec fn in_bounds(size: nat, offset: int, len: int) -> bool {
    0 <= offset && 0 <= len && offset + len <= size
}

/// `initial` and `maximum` are page counts that a linear memory may be created with.
pub open spec fn valid_limits(initial: u32, maximum: Option<u32>) -> bool {
    &&& initial <= MAX_PAGES
    &&& match maximum {
        Some(max) => initial <= max && max <= MAX_PAGES,
        None => true,
    }
}

/// `mem` with the bytes from `offset` on replaced by `data`.
pub open spec fn write_bytes(mem: Seq<u8>, offset: int, data: Seq<u8>) -> Seq<u8> {
    Seq::new(
        mem.len(),
        |i: int|
            if offset <= i < offset + data.len() {
                data[i - offset]
            } else {
                mem[i]
            },
    )
}

/// Access to a linear memory: reading and writing byte ranges at absolute offsets,
/// failing when a range leaves the memory.
pub trait SandboxMemory: Sized {
    /// The bytes the memory holds, in address order.
    spec fn bytes(&self) -> Seq<u8>;

    /// Constructs a zeroed linear memory of `initial` pages that may grow to `maximum` pages.
    fn new(initial: u32, maximum: Option<u32>) -> (r: Result<Self, Error>)
        ensures
            !valid_limits(initial, maximum) ==> r == Err::<Self, Error>(Error::Module),
            r is Err ==> r == Err::<Self, Error>(Error::Module),
            r matches Ok(m) ==> m.bytes() == Seq::new(
                initial as nat * PAGE_SIZE as nat,
                |i: int| 0u8,
            ),
    ;

    /// Reads `buf.len()` bytes from address `ptr` into `buf`.
    fn get(&self, ptr: u32, buf: &mut [u8]) -> (r: Result<(), Error>)
        ensures
            r is Ok <==> in_bounds(self.bytes().len(), ptr as int, old(buf)@.len() as int),
            r is Ok ==> final(buf)@ == self.bytes().subrange(ptr as int, ptr + old(buf)@.len()),
            r is Err ==> r == Err::<(), Error>(Error::OutOfBounds) && final(buf)@ == old(buf)@,
    ;

    /// Writes `value` to address `ptr`.
    fn set(&mut self, ptr: u32, value: &[u8]) -> (r: Result<(), Error>)
        ensures
            r is Ok <==> in_bounds(old(self).bytes().len(), ptr as int, value@.len() as int),
            r is Ok ==> final(self).bytes() == write_bytes(old(self).bytes(), ptr as int, value@),
            r is Err ==> r == Err::<(), Error>(Error::OutOfBounds) && final(self).bytes() == old(
                self,
            ).bytes(),
    ;
}

/// A linear memory of the wasmi engine.
///
/// `engine` is the handle the engine itself uses; an instance that imports this memory
/// shares it, and guest code run in that instance may change the bytes. The library
/// itself never copies the handle, so the bytes it reasons about change only through
/// this value.
pub struct Memory {
    pub engine: wasmi::MemoryRef,
}

impl SandboxMemory for Memory {
    open spec fn bytes(&self) -> Seq<u8> {
        memory_contents(self.engine)
    }

    fn new(initial: u32, maximum: Option<u32>) -> (r: Result<Self, Error>) {
        match wasmi_alloc(initial, maximum) {
            Some(engine) => Ok(Memory { engine }),
            None => Err(Error::Module),
        }
    }

    fn get(&self, ptr: u32, buf: &mut [u8]) -> (r: Result<(), Error>) {
        if wasmi_get_into(&self.engine, ptr, buf) {
            Ok(())
        } else {
            Err(Error::OutOfBounds)
        }
    }

    fn set(&mut self, ptr: u32, value: &[u8]) -> (r: Result<(), Error>) {
        if wasmi_set(&mut self.engine, ptr, value) {
            Ok(())
        } else {
            Err(Error::OutOfBounds)
        }
    }
}

} // verus!
