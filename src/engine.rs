//! The wasmi linear memory as seen by verified code: its bytes, and the engine calls
//! that read, write and allocate them.

use vstd::prelude::*;

use crate::memory::{in_bounds, valid_limits, write_bytes, PAGE_SIZE};

verus! {

#[verifier::external_type_specification]
#[verifier::external_body]
pub struct ExMemoryRef(wasmi::MemoryRef);

/// The bytes that a wasmi linear memory holds, in address order.
pub uninterp spec fn memory_contents(m: wasmi::MemoryRef) -> Seq<u8>;

/// Relies on wasmi::MemoryInstance::alloc: it refuses limits over 65536 pages or
/// with `maximum` below `initial`, and a memory it returns holds `initial` pages of zeros.
#[verifier::external_body]
pub(crate) fn wasmi_alloc(initial: u32, maximum: Option<u32>) -> (r: Option<wasmi::MemoryRef>)
    ensures
        !valid_limits(initial, maximum) ==> r is None,
        r matches Some(m) ==> memory_contents(m) == Seq::new(
            initial as nat * PAGE_SIZE as nat,
            |i: int| 0u8,
        ),
{
    let maximum = maximum.map(|m| wasmi::memory_units::Pages(m as usize));
    wasmi::MemoryInstance::alloc(wasmi::memory_units::Pages(initial as usize), maximum).ok()
}

/// Relies on wasmi::MemoryInstance::get_into: it copies `target.len()` bytes from
/// `offset`, and fails, leaving `target` as it was, when the range passes the end of memory.
#[verifier::external_body]
pub(crate) fn wasmi_get_into(m: &wasmi::MemoryRef, offset: u32, target: &mut [u8]) -> (r: bool)
    ensures
        r <==> in_bounds(memory_contents(*m).len(), offset as int, old(target)@.len() as int),
        r ==> final(target)@ == memory_contents(*m).subrange(
            offset as int,
            offset + old(target)@.len(),
        ),
        !r ==> final(target)@ == old(target)@,
{
    m.get_into(offset, target).is_ok()
}

/// Relies on wasmi::MemoryInstance::set: it copies `value` to `offset`, and fails,
/// changing nothing, when the range passes the end of memory.
#[verifier::external_body]
pub(crate) fn wasmi_set(m: &mut wasmi::MemoryRef, offset: u32, value: &[u8]) -> (r: bool)
    ensures
        r <==> in_bounds(memory_contents(*old(m)).len(), offset as int, value@.len() as int),
        r ==> memory_contents(*final(m)) == write_bytes(
            memory_contents(*old(m)),
            offset as int,
            value@,
        ),
        !r ==> memory_contents(*final(m)) == memory_contents(*old(m)),
{
    m.set(offset, value).is_ok()
}

} // verus!
