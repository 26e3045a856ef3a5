//! Region descriptors in guest linear memory, and the transfer of bytes through them.
//!
//! A guest passes a pointer to a twelve-byte descriptor; every transfer reads that
//! descriptor afresh, checks it, and only then copies bytes in or out.

use vstd::prelude::*;

use crate::memory::{in_bounds, write_bytes, SandboxMemory};

verus! {

/// Size in bytes of a region descriptor in linear memory: three `u32` fields.
pub const REGION_SIZE: u32 = 12;

/// Describes some data allocated in Wasm's linear memory.
/// A pointer to an instance of this can be passed over the FFI boundary.
///
/// In memory it is laid out as `offset`, `capacity`, `length`, each a little-endian `u32`.
#[derive(Debug, Clone, Copy, PartialEq, Eq, Structural)]
pub struct Region {
    /// The beginning of the region expressed as bytes from the beginning of the linear memory.
    pub offset: u32,
    /// The number of bytes available in this region.
    pub capacity: u32,
    /// The number of bytes used in this region.
    pub length: u32,
}

/// The way in which a region descriptor is inconsistent.
#[derive(Debug, Clone, Copy, PartialEq, Eq, Structural)]
pub enum InvalidRegion {
    /// The offset is zero, which is reserved.
    ZeroOffset,
    /// More bytes are claimed to be used than are available.
    LengthExceedsCapacity,
    /// `offset + capacity` passes the end of the 32-bit address space.
    OutOfRange,
}

/// Failure of a transfer between host and guest memory.
#[derive(Debug, Clone, Copy, PartialEq, Eq, Structural)]
pub enum RegionError {
    /// The descriptor itself could not be read from or written to memory.
    CannotReadDescriptor,
    /// The descriptor is inconsistent.
    RegionInvalid(InvalidRegion),
    /// The region holds more bytes than the caller accepts.
    RegionTooBig,
    /// The data does not fit into the capacity of the region.
    RegionTooSmall,
    /// The bytes of the region lie outside the memory.
    OutOfBoundsRead,
    /// The bytes to write would lie outside the memory.
    OutOfBoundsWrite,
}

/// The first invariant of a descriptor that `region` breaks, if any.
pub open spec fn region_violation(region: Region) -> Option<InvalidRegion> {
    if region.offset == 0 {
        Some(InvalidRegion::ZeroOffset)
    } else if region.length > region.capacity {
        Some(InvalidRegion::LengthExceedsCapacity)
    } else if region.capacity > u32::MAX - region.offset {
        Some(InvalidRegion::OutOfRange)
    } else {
        None
    }
}

/// `region` may be trusted: its offset is not zero, its length fits its capacity, and
/// `[offset, offset + capacity)` lies within the 32-bit address space.
pub open spec fn region_is_valid(region: Region) -> bool {
    &&& region.offset != 0
    &&& region.length <= region.capacity
    &&& region.offset + region.capacity <= u32::MAX
}

/// The value of four bytes read as a little-endian `u32`.
pub open spec fn u32_from_le(b: Seq<u8>) -> u32 {
    (b[0] as int + 256 * b[1] + 65536 * b[2] + 16777216 * b[3]) as u32
}

/// The four bytes of `x` in little-endian order.
pub open spec fn u32_to_le(x: u32) -> Seq<u8> {
    seq![(x % 256) as u8, ((x / 256) % 256) as u8, ((x / 65536) % 256) as u8, (x / 16777216) as u8]
}

/// The descriptor that twelve bytes of memory hold.
pub open spec fn decode_region(b: Seq<u8>) -> Region {
    Region {
        offset: u32_from_le(b.subrange(0, 4)),
        capacity: u32_from_le(b.subrange(4, 8)),
        length: u32_from_le(b.subrange(8, 12)),
    }
}

/// The twelve bytes that stand for `region` in memory.
pub open spec fn encode_region(region: Region) -> Seq<u8> {
    u32_to_le(region.offset) + u32_to_le(region.capacity) + u32_to_le(region.length)
}

/// A whole descriptor lies in `mem` at `ptr`.
pub open spec fn descriptor_readable(mem: Seq<u8>, ptr: u32) -> bool {
    in_bounds(mem.len(), ptr as int, REGION_SIZE as int)
}

/// The descriptor found in `mem` at `ptr`.
pub open spec fn region_at(mem: Seq<u8>, ptr: u32) -> Region {
    decode_region(mem.subrange(ptr as int, ptr + REGION_SIZE))
}

/// What reading the region that `ptr` points to in `mem` yields, with at most
/// `max_length` bytes accepted.
pub open spec fn read_region_result(mem: Seq<u8>, ptr: u32, max_length: usize) -> Result<
    Seq<u8>,
    RegionError,
> {
    let region = region_at(mem, ptr);
    if !descriptor_readable(mem, ptr) {
        Err(RegionError::CannotReadDescriptor)
    } else if region_violation(region) is Some {
        Err(RegionError::RegionInvalid(region_violation(region)->0))
    } else if region.length > max_length {
        Err(RegionError::RegionTooBig)
    } else if !in_bounds(mem.len(), region.offset as int, region.length as int) {
        Err(RegionError::OutOfBoundsRead)
    } else {
        Ok(mem.subrange(region.offset as int, region.offset + region.length))
    }
}

/// The memory after `data` is written into the region that `ptr` points to in `mem`,
/// and the descriptor's length is set to the length of `data`.
pub open spec fn write_region_result(mem: Seq<u8>, ptr: u32, data: Seq<u8>) -> Result<
    Seq<u8>,
    RegionError,
> {
    let region = region_at(mem, ptr);
    if !descriptor_readable(mem, ptr) {
        Err(RegionError::CannotReadDescriptor)
    } else if region_violation(region) is Some {
        Err(RegionError::RegionInvalid(region_violation(region)->0))
    } else if data.len() > region.capacity {
        Err(RegionError::RegionTooSmall)
    } else if !in_bounds(mem.len(), region.offset as int, data.len() as int) {
        Err(RegionError::OutOfBoundsWrite)
    } else {
        let written = write_bytes(mem, region.offset as int, data);
        Ok(
            write_bytes(
                written,
                ptr as int,
                encode_region(Region { length: data.len() as u32, ..region }),
            ),
        )
    }
}

/// Performs plausibility checks on the given region: the invariants are checked in order,
/// and the first one broken is reported.
pub fn validate_region(region: &Region) -> (r: Result<(), RegionError>)
    ensures
        r == match region_violation(*region) {
            Some(v) => Err(RegionError::RegionInvalid(v)),
            None => Ok(()),
        },
        r is Ok <==> region_is_valid(*region),
{
    if region.offset == 0 {
        return Err(RegionError::RegionInvalid(InvalidRegion::ZeroOffset));
    }
    if region.length > region.capacity {
        return Err(RegionError::RegionInvalid(InvalidRegion::LengthExceedsCapacity));
    }
    if region.capacity > u32::MAX - region.offset {
        return Err(RegionError::RegionInvalid(InvalidRegion::OutOfRange));
    }
    Ok(())
}

/// Reading back the bytes of a `u32` gives the `u32`.
pub proof fn lemma_u32_le_round_trip(x: u32)
    ensures
        u32_from_le(u32_to_le(x)) == x,
{
    let b = u32_to_le(x);
    let a = x / 256;
    let c = x / 65536;
    assert(x == x % 256 + 256 * a);
    assert(a == a % 256 + 256 * (a / 256));
    assert(a / 256 == c) by {
        vstd::arithmetic::div_mod::lemma_div_denominator(x as int, 256, 256);
    }
    assert(c == c % 256 + 256 * (c / 256));
    assert(c / 256 == x / 16777216) by {
        vstd::arithmetic::div_mod::lemma_div_denominator(x as int, 65536, 256);
    }
    assert(b[0] as int + 256 * b[1] + 65536 * b[2] + 16777216 * b[3] == x as int);
}

/// Reading back the bytes of a descriptor gives the descriptor.
pub proof fn lemma_region_round_trip(region: Region)
    ensures
        decode_region(encode_region(region)) == region,
{
    let b = encode_region(region);
    assert(b.subrange(0, 4) =~= u32_to_le(region.offset));
    assert(b.subrange(4, 8) =~= u32_to_le(region.capacity));
    assert(b.subrange(8, 12) =~= u32_to_le(region.length));
    lemma_u32_le_round_trip(region.offset);
    lemma_u32_le_round_trip(region.capacity);
    lemma_u32_le_round_trip(region.length);
}

/// Reads four bytes at `at` as a little-endian `u32`.
fn read_u32_le(b: &[u8], at: usize) -> (r: u32)
    requires
        at + 4 <= b@.len(),
    ensures
        r == u32_from_le(b@.subrange(at as int, at + 4)),
{
    let r = b[at] as u32 + (b[at + 1] as u32) * 256 + (b[at + 2] as u32) * 65536 + (b[at + 3]
        as u32) * 16777216;
    r
}

/// Appends the four bytes of `x` in little-endian order.
fn push_u32_le(out: &mut Vec<u8>, x: u32)
    ensures
        final(out)@ == old(out)@ + u32_to_le(x),
{
    out.push((x % 256) as u8);
    out.push(((x / 256) % 256) as u8);
    out.push(((x / 65536) % 256) as u8);
    out.push((x / 16777216) as u8);
    assert(final(out)@ =~= old(out)@ + u32_to_le(x));
}

/// Reads in a region descriptor at `ptr` in memory and returns a copy of it.
pub fn get_region<M: SandboxMemory>(memory: &M, ptr: u32) -> (r: Result<Region, RegionError>)
    ensures
        r is Ok <==> descriptor_readable(memory.bytes(), ptr),
        r matches Ok(region) ==> region == region_at(memory.bytes(), ptr),
        r is Err ==> r == Err::<Region, RegionError>(RegionError::CannotReadDescriptor),
{
    let mut buf: Vec<u8> = vec![0u8; 12];
    match memory.get(ptr, buf.as_mut_slice()) {
        Ok(()) => {
            let b = buf.as_slice();
            let region = Region {
                offset: read_u32_le(b, 0),
                capacity: read_u32_le(b, 4),
                length: read_u32_le(b, 8),
            };
            assert(b@.subrange(0, 4) =~= memory.bytes().subrange(ptr as int, ptr + 12).subrange(0, 4));
            assert(b@.subrange(4, 8) =~= memory.bytes().subrange(ptr as int, ptr + 12).subrange(4, 8));
            assert(b@.subrange(8, 12) =~= memory.bytes().subrange(ptr as int, ptr + 12).subrange(8, 12));
            Ok(region)
        },
        Err(_) => Err(RegionError::CannotReadDescriptor),
    }
}

/// Overwrites the region descriptor at `ptr` in memory with `region`.
pub fn set_region<M: SandboxMemory>(memory: &mut M, ptr: u32, region: Region) -> (r: Result<
    (),
    RegionError,
>)
    ensures
        r is Ok <==> descriptor_readable(old(memory).bytes(), ptr),
        r is Ok ==> final(memory).bytes() == write_bytes(
            old(memory).bytes(),
            ptr as int,
            encode_region(region),
        ),
        r is Err ==> r == Err::<(), RegionError>(RegionError::CannotReadDescriptor)
            && final(memory).bytes() == old(memory).bytes(),
{
    let mut bytes: Vec<u8> = Vec::new();
    push_u32_le(&mut bytes, region.offset);
    push_u32_le(&mut bytes, region.capacity);
    push_u32_le(&mut bytes, region.length);
    assert(bytes@ =~= encode_region(region));
    match memory.set(ptr, bytes.as_slice()) {
        Ok(()) => Ok(()),
        Err(_) => Err(RegionError::CannotReadDescriptor),
    }
}

/// Expects a region descriptor at `ptr`, which is read and validated; the bytes of the
/// region it describes are then copied out. Fails if the region holds more than
/// `max_length` bytes. Memory is never changed.
pub fn read_region<M: SandboxMemory>(memory: &M, ptr: u32, max_length: usize) -> (r: Result<
    Vec<u8>,
    RegionError,
>)
    ensures
        match r {
            Ok(data) => read_region_result(memory.bytes(), ptr, max_length) == Ok::<
                Seq<u8>,
                RegionError,
            >(data@),
            Err(e) => read_region_result(memory.bytes(), ptr, max_length) == Err::<
                Seq<u8>,
                RegionError,
            >(e),
        },
{
    let region = match get_region(memory, ptr) {
        Ok(region) => region,
        Err(e) => return Err(e),
    };
    if let Err(e) = validate_region(&region) {
        return Err(e);
    }
    if region.length as usize > max_length {
        return Err(RegionError::RegionTooBig);
    }
    let mut data: Vec<u8> = vec![0u8; region.length as usize];
    match memory.get(region.offset, data.as_mut_slice()) {
        Ok(()) => Ok(data),
        Err(_) => Err(RegionError::OutOfBoundsRead),
    }
}

/// Expects a region descriptor at `ptr` that points to memory the guest set aside;
/// `data` is copied there and the descriptor's length is set to `data.len()`.
/// On failure memory is left as it was.
pub fn write_region<M: SandboxMemory>(memory: &mut M, ptr: u32, data: &[u8]) -> (r: Result<
    (),
    RegionError,
>)
    ensures
        match r {
            Ok(()) => write_region_result(old(memory).bytes(), ptr, data@) == Ok::<
                Seq<u8>,
                RegionError,
            >(final(memory).bytes()),
            Err(e) => write_region_result(old(memory).bytes(), ptr, data@) == Err::<
                Seq<u8>,
                RegionError,
            >(e) && final(memory).bytes() == old(memory).bytes(),
        },
{
    let mut region = match get_region(memory, ptr) {
        Ok(region) => region,
        Err(e) => return Err(e),
    };
    if let Err(e) = validate_region(&region) {
        return Err(e);
    }
    if data.len() > region.capacity as usize {
        return Err(RegionError::RegionTooSmall);
    }
    if let Err(_) = memory.set(region.offset, data) {
        return Err(RegionError::OutOfBoundsWrite);
    }
    region.length = data.len() as u32;
    set_region(memory, ptr, region)
}

/// A descriptor whose offset is zero is rejected, whatever its capacity and length.
pub proof fn lemma_zero_offset_rejected(region: Region)
    requires
        region.offset == 0,
    ensures
        region_violation(region) == Some(InvalidRegion::ZeroOffset),
        !region_is_valid(region),
{
}

/// A descriptor whose length exceeds its capacity is rejected.
pub proof fn lemma_length_over_capacity_rejected(region: Region)
    requires
        region.length > region.capacity,
    ensures
        region_violation(region) is Some,
        !region_is_valid(region),
{
}

/// A descriptor whose `offset + capacity` overflows 32 bits is rejected.
pub proof fn lemma_overflowing_range_rejected(region: Region)
    requires
        region.offset + region.capacity > u32::MAX,
    ensures
        region_violation(region) is Some,
        !region_is_valid(region),
{
}

/// Bytes written into a region read back unchanged, when the region's capacity holds
/// them, the reader accepts that many bytes, and they do not overlap the descriptor.
pub proof fn lemma_write_then_read(mem: Seq<u8>, ptr: u32, data: Seq<u8>, max_length: usize)
    requires
        descriptor_readable(mem, ptr),
        region_is_valid(region_at(mem, ptr)),
        data.len() <= region_at(mem, ptr).capacity,
        in_bounds(mem.len(), region_at(mem, ptr).offset as int, data.len() as int),
        data.len() <= max_length,
        region_at(mem, ptr).offset + data.len() <= ptr || ptr + REGION_SIZE <= region_at(
            mem,
            ptr,
        ).offset,
    ensures
        write_region_result(mem, ptr, data) matches Ok(after) && read_region_result(
            after,
            ptr,
            max_length,
        ) == Ok::<Seq<u8>, RegionError>(data),
{
    let region = region_at(mem, ptr);
    let updated = Region { length: data.len() as u32, ..region };
    let written = write_bytes(mem, region.offset as int, data);
    let after = write_bytes(written, ptr as int, encode_region(updated));
    assert(write_region_result(mem, ptr, data) == Ok::<Seq<u8>, RegionError>(after));
    assert(after.subrange(ptr as int, ptr + REGION_SIZE) =~= encode_region(updated));
    lemma_region_round_trip(updated);
    assert(region_at(after, ptr) == updated);
    assert(after.subrange(region.offset as int, region.offset + data.len()) =~= data);
}

/// Reading a region that holds more than `max_length` bytes fails with `RegionTooBig`.
pub proof fn lemma_read_too_big(mem: Seq<u8>, ptr: u32, max_length: usize)
    requires
        descriptor_readable(mem, ptr),
        region_is_valid(region_at(mem, ptr)),
        region_at(mem, ptr).length > max_length,
    ensures
        read_region_result(mem, ptr, max_length) == Err::<Seq<u8>, RegionError>(
            RegionError::RegionTooBig,
        ),
{
}

/// Writing more bytes than a region's capacity fails with `RegionTooSmall`; memory,
/// and with it the descriptor's length, then stays as it was (see `write_region`).
pub proof fn lemma_write_too_small(mem: Seq<u8>, ptr: u32, data: Seq<u8>)
    requires
        descriptor_readable(mem, ptr),
        region_is_valid(region_at(mem, ptr)),
        data.len() > region_at(mem, ptr).capacity,
    ensures
        write_region_result(mem, ptr, data) == Err::<Seq<u8>, RegionError>(
            RegionError::RegionTooSmall,
        ),
{
}

} // verus!
