//! Choosing a memory type for a buffer.

use vstd::prelude::*;
use crate::flags::memory_flags_contain;
use crate::gpu::RenderError;

verus! {

/// Number of memory types a device can report; also the width of the
/// memory-type bitmask.
pub const MAX_MEMORY_TYPES: usize = 32;

/// One memory type of the device.
#[derive(Clone, Copy, Debug, PartialEq, Eq)]
pub struct MemoryType {
    /// Raw memory property flags.
    pub property_flags: u32,
    pub heap_index: u32,
}

/// What a buffer needs of the memory bound to it.
#[derive(Clone, Copy, Debug, PartialEq, Eq)]
pub struct MemoryRequirements {
    pub size: u64,
    pub alignment: u64,
    /// Bit `i` is set when memory type `i` may back the buffer.
    pub memory_type_bits: u32,
}

/// The memory types of a physical device, in the device's order.
#[derive(Clone, Debug, PartialEq, Eq)]
pub struct MemoryProperties {
    pub memory_types: Vec<MemoryType>,
}

/// Memory type `i` may back a resource with mask `type_bits` and carries
/// every property in `required`.
pub open spec fn suits(types: Seq<MemoryType>, type_bits: u32, required: u32, i: int) -> bool {
    &&& 0 <= i < types.len()
    &&& i < MAX_MEMORY_TYPES
    &&& type_bits & (1u32 << (i as u32)) != 0
    &&& types[i].property_flags & required == required
}

impl MemoryProperties {
    /// The memory types as a sequence.
    pub open spec fn types(&self) -> Seq<MemoryType> {
        self.memory_types@
    }
}

/// `i` suits and no type before it does.
pub open spec fn is_first_suitable(
    types: Seq<MemoryType>,
    type_bits: u32,
    required: u32,
    i: int,
) -> bool {
    &&& suits(types, type_bits, required, i)
    &&& forall|j: int| 0 <= j < i ==> !suits(types, type_bits, required, j)
}

/// The first suitable memory type, if there is one.
pub open spec fn first_suitable(types: Seq<MemoryType>, type_bits: u32, required: u32) -> Option<
    u32,
> {
    if exists|i: int| is_first_suitable(types, type_bits, required, i) {
        Some((choose|i: int| is_first_suitable(types, type_bits, required, i)) as u32)
    } else {
        None
    }
}

/// The outcome of the search as a result value.
pub open spec fn memory_type_choice(
    types: Seq<MemoryType>,
    type_bits: u32,
    required: u32,
) -> Result<u32, RenderError> {
    match first_suitable(types, type_bits, required) {
        Some(i) => Ok(i),
        None => Err(RenderError::NoSuitableMemoryType),
    }
}

/// Scans the device's memory types in order and returns the first one that
/// the requirements allow and that has all of `required_properties`; without
/// one the request cannot be served by this device.
pub fn find_memory_type(
    requirements: &MemoryRequirements,
    mem_properties: &MemoryProperties,
    required_properties: u32,
) -> (r: Result<u32, RenderError>)
    ensures
        r == memory_type_choice(
            mem_properties.types(),
            requirements.memory_type_bits,
            required_properties,
        ),
        match r {
            Ok(i) => is_first_suitable(
                mem_properties.types(),
                requirements.memory_type_bits,
                required_properties,
                i as int,
            ),
            Err(e) => {
                &&& e == RenderError::NoSuitableMemoryType
                &&& forall|j: int|
                    !suits(
                        mem_properties.types(),
                        requirements.memory_type_bits,
                        required_properties,
                        j,
                    )
            },
        },
{
    let ghost types = mem_properties.types();
    let ghost bits = requirements.memory_type_bits;
    let count: usize = if mem_properties.memory_types.len() < MAX_MEMORY_TYPES {
        mem_properties.memory_types.len()
    } else {
        MAX_MEMORY_TYPES
    };
    let mut i: usize = 0;
    while i < count
        invariant
            i <= count <= MAX_MEMORY_TYPES,
            count <= mem_properties.memory_types.len(),
            count == mem_properties.memory_types.len() || count == MAX_MEMORY_TYPES,
            types == mem_properties.types(),
            bits == requirements.memory_type_bits,
            forall|j: int| 0 <= j < i ==> !suits(types, bits, required_properties, j),
        decreases count - i,
    {
        let bit: u32 = 1u32 << (i as u32);
        if requirements.memory_type_bits & bit != 0 && memory_flags_contain(
            mem_properties.memory_types[i].property_flags,
            required_properties,
        ) {
            proof {
                assert(is_first_suitable(types, bits, required_properties, i as int));
                let c = choose|c: int| is_first_suitable(types, bits, required_properties, c);
                assert(c == i) by {
                    if c < i {
                        assert(!suits(types, bits, required_properties, c));
                    }
                    if i < c {
                        assert(!suits(types, bits, required_properties, i as int));
                    }
                }
            }
            return Ok(i as u32);
        }
        i += 1;
    }
    Err(RenderError::NoSuitableMemoryType)
}

/// The index of the first memory type that `requirements` allow and that has
/// all of `properties`.
pub fn get_memory_type_index(
    mem_properties: &MemoryProperties,
    properties: u32,
    requirements: &MemoryRequirements,
) -> (r: Result<u32, RenderError>)
    ensures
        r == memory_type_choice(mem_properties.types(), requirements.memory_type_bits, properties),
        match r {
            Ok(i) => is_first_suitable(
                mem_properties.types(),
                requirements.memory_type_bits,
                properties,
                i as int,
            ),
            Err(e) => {
                &&& e == RenderError::NoSuitableMemoryType
                &&& forall|j: int|
                    !suits(mem_properties.types(), requirements.memory_type_bits, properties, j)
            },
        },
{
    find_memory_type(requirements, mem_properties, properties)
}

} // verus!
