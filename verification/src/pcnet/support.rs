//! Translation of kernel-virtual addresses to bus-physical ones.

use vstd::prelude::*;

verus! {

/// The first bus-physical address that the card is not given: physical
/// addresses stay below it.
pub const PHYS_LIMIT: u64 = 0x8000_0000;

/// Why an address has no bus-physical counterpart.
#[derive(Debug, Clone, Copy, PartialEq, Eq, Structural)]
pub enum AddrError {
    /// The address lies below the window in which physical memory is mapped.
    BelowOffset,
    /// The physical address would not stay below `PHYS_LIMIT`.
    BeyondLimit,
}

/// Translates addresses under a fixed mapping: all physical memory is mapped
/// at `physical_memory_offset`.
#[derive(Debug, Clone, Copy, PartialEq, Eq, Structural)]
pub struct AddrTranslator {
    pub physical_memory_offset: u64,
}

/// The bus-physical address of a kernel-virtual one: the distance from the
/// mapping offset, where the address is not below the offset and the distance
/// is below `PHYS_LIMIT`.
pub open spec fn spec_translate(physical_memory_offset: u64, addr: u64) -> Result<u32, AddrError> {
    if addr < physical_memory_offset {
        Err(AddrError::BelowOffset)
    } else if addr - physical_memory_offset >= PHYS_LIMIT {
        Err(AddrError::BeyondLimit)
    } else {
        Ok((addr - physical_memory_offset) as u32)
    }
}

impl AddrTranslator {
    /// A translator for the given mapping offset.
    pub fn new(physical_memory_offset: u64) -> (translator: Self)
        ensures
            translator.physical_memory_offset == physical_memory_offset,
    {
        Self { physical_memory_offset }
    }

    /// The bus-physical address of `addr`, or the reason why it has none.
    pub fn translate(&self, addr: u64) -> (phys: Result<u32, AddrError>)
        ensures
            phys == spec_translate(self.physical_memory_offset, addr),
            phys is Ok ==> phys->Ok_0 as int == addr as int - self.physical_memory_offset as int,
            phys is Ok ==> (phys->Ok_0 as int) < PHYS_LIMIT,
    {
        if addr < self.physical_memory_offset {
            return Err(AddrError::BelowOffset);
        }
        let phys: u64 = addr - self.physical_memory_offset;
        if phys >= PHYS_LIMIT {
            return Err(AddrError::BeyondLimit);
        }
        Ok(phys as u32)
    }
}

/// Translation succeeds exactly on the addresses of the window, and the
/// physical address is then the distance from the mapping offset, which fits
/// in thirty-two bits.
pub proof fn lemma_translate_window(physical_memory_offset: u64, addr: u64)
    ensures
        spec_translate(physical_memory_offset, addr) is Ok <==> physical_memory_offset <= addr
            && addr - physical_memory_offset < PHYS_LIMIT,
        spec_translate(physical_memory_offset, addr) is Ok ==> spec_translate(physical_memory_offset, addr)->Ok_0
            as int == addr - physical_memory_offset && addr - physical_memory_offset <= u32::MAX,
{
}

/// The address just below the mapping offset has no physical counterpart,
/// and neither has the one that lies `PHYS_LIMIT` above the offset.
pub proof fn lemma_translate_edges(physical_memory_offset: u64)
    ensures
        physical_memory_offset > 0 ==> spec_translate(physical_memory_offset, (physical_memory_offset - 1) as u64)
            == Err::<u32, AddrError>(AddrError::BelowOffset),
        physical_memory_offset + PHYS_LIMIT <= u64::MAX ==> spec_translate(
            physical_memory_offset,
            (physical_memory_offset + PHYS_LIMIT) as u64,
        ) == Err::<u32, AddrError>(AddrError::BeyondLimit),
        spec_translate(physical_memory_offset, physical_memory_offset) == Ok::<u32, AddrError>(0u32),
{
}

} // verus!
