//! The UEFI memory-map values the boot sequence inspects. The raw map buffer
//! itself is walked by unverified boot code; what crosses into this library
//! are plain descriptor values and their types.

use vstd::prelude::*;

verus! {

/// One UEFI memory descriptor, as plain values.
#[derive(Debug, Clone, Copy, PartialEq, Eq, Structural)]
pub struct MemoryDescriptor {
    pub md_type: u32,
    pub physical_start: u64,
    pub virtual_start: u64,
    pub number_of_pages: u64,
    pub attribute: u64,
}

/// The UEFI memory types, in their numeric order starting at zero.
#[derive(Debug, Clone, Copy, PartialEq, Eq, Structural)]
pub enum MemoryType {
    EfiReservedMemoryType,
    EfiLoaderCode,
    EfiLoaderData,
    EfiBootServicesCode,
    EfiBootServicesData,
    EfiRuntimeServicesCode,
    EfiRuntimeServicesData,
    EfiConventionalMemory,
    EfiUnusableMemory,
    EfiACPIReclaimMemory,
    EfiACPIMemoryNVS,
    EfiMemoryMappedIO,
    EfiMemoryMappedIOPortSpace,
    EfiPalCode,
    EfiPersistentMemory,
    EfiMaxMemoryType,
}

/// The memory type a descriptor's numeric type field denotes, if any.
pub open spec fn spec_memory_type_from_u32(v: u32) -> Option<MemoryType> {
    if v == 0 {
        Some(MemoryType::EfiReservedMemoryType)
    } else if v == 1 {
        Some(MemoryType::EfiLoaderCode)
    } else if v == 2 {
        Some(MemoryType::EfiLoaderData)
    } else if v == 3 {
        Some(MemoryType::EfiBootServicesCode)
    } else if v == 4 {
        Some(MemoryType::EfiBootServicesData)
    } else if v == 5 {
        Some(MemoryType::EfiRuntimeServicesCode)
    } else if v == 6 {
        Some(MemoryType::EfiRuntimeServicesData)
    } else if v == 7 {
        Some(MemoryType::EfiConventionalMemory)
    } else if v == 8 {
        Some(MemoryType::EfiUnusableMemory)
    } else if v == 9 {
        Some(MemoryType::EfiACPIReclaimMemory)
    } else if v == 10 {
        Some(MemoryType::EfiACPIMemoryNVS)
    } else if v == 11 {
        Some(MemoryType::EfiMemoryMappedIO)
    } else if v == 12 {
        Some(MemoryType::EfiMemoryMappedIOPortSpace)
    } else if v == 13 {
        Some(MemoryType::EfiPalCode)
    } else if v == 14 {
        Some(MemoryType::EfiPersistentMemory)
    } else if v == 15 {
        Some(MemoryType::EfiMaxMemoryType)
    } else {
        None
    }
}

impl MemoryType {
    /// Decodes a descriptor's numeric type field; values past the last
    /// defined type give `None`.
    pub fn from_u32(v: u32) -> (r: Option<MemoryType>)
        ensures
            r == spec_memory_type_from_u32(v),
    {
        match v {
            0 => Some(MemoryType::EfiReservedMemoryType),
            1 => Some(MemoryType::EfiLoaderCode),
            2 => Some(MemoryType::EfiLoaderData),
            3 => Some(MemoryType::EfiBootServicesCode),
            4 => Some(MemoryType::EfiBootServicesData),
            5 => Some(MemoryType::EfiRuntimeServicesCode),
            6 => Some(MemoryType::EfiRuntimeServicesData),
            7 => Some(MemoryType::EfiConventionalMemory),
            8 => Some(MemoryType::EfiUnusableMemory),
            9 => Some(MemoryType::EfiACPIReclaimMemory),
            10 => Some(MemoryType::EfiACPIMemoryNVS),
            11 => Some(MemoryType::EfiMemoryMappedIO),
            12 => Some(MemoryType::EfiMemoryMappedIOPortSpace),
            13 => Some(MemoryType::EfiPalCode),
            14 => Some(MemoryType::EfiPersistentMemory),
            15 => Some(MemoryType::EfiMaxMemoryType),
            _ => None,
        }
    }

    /// Memory the kernel may take for itself once boot services end:
    /// boot-services code and data, and conventional memory.
    pub open spec fn spec_is_available(&self) -> bool {
        self == MemoryType::EfiBootServicesCode || self == MemoryType::EfiBootServicesData || self
            == MemoryType::EfiConventionalMemory
    }

    /// Memory the kernel may take for itself once boot services end.
    pub fn is_available(&self) -> (r: bool)
        ensures
            r == self.spec_is_available(),
    {
        match self {
            MemoryType::EfiBootServicesCode => true,
            MemoryType::EfiBootServicesData => true,
            MemoryType::EfiConventionalMemory => true,
            _ => false,
        }
    }
}

} // verus!
