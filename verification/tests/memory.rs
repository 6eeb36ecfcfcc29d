use pencilmake::gpu::RenderError;
use pencilmake::memory::{
    find_memory_type, get_memory_type_index, MemoryProperties, MemoryRequirements, MemoryType,
};

fn device() -> MemoryProperties {
    MemoryProperties {
        memory_types: vec![
            MemoryType { property_flags: 0x1, heap_index: 0 },
            MemoryType { property_flags: 0x6, heap_index: 1 },
            MemoryType { property_flags: 0xe, heap_index: 1 },
            MemoryType { property_flags: 0x7, heap_index: 0 },
        ],
    }
}

fn needs(bits: u32) -> MemoryRequirements {
    MemoryRequirements { size: 256, alignment: 16, memory_type_bits: bits }
}

#[test]
fn first_matching_type_wins() {
    assert_eq!(find_memory_type(&needs(0b1111), &device(), 0x6), Ok(1));
    assert_eq!(find_memory_type(&needs(0b1111), &device(), 0x1), Ok(0));
}

#[test]
fn type_must_be_allowed_by_the_mask() {
    assert_eq!(find_memory_type(&needs(0b1100), &device(), 0x6), Ok(2));
    assert_eq!(find_memory_type(&needs(0b1000), &device(), 0x6), Ok(3));
}

#[test]
fn flags_must_be_a_superset() {
    assert_eq!(find_memory_type(&needs(0b0111), &device(), 0x7), Err(RenderError::NoSuitableMemoryType));
    assert_eq!(find_memory_type(&needs(0b1111), &device(), 0x7), Ok(3));
}

#[test]
fn no_type_is_a_configuration_error() {
    let e = find_memory_type(&needs(0), &device(), 0x1).unwrap_err();
    assert_eq!(e, RenderError::NoSuitableMemoryType);
    assert!(e.is_configuration());
    let none = MemoryProperties { memory_types: vec![] };
    assert_eq!(find_memory_type(&needs(u32::MAX), &none, 0), Err(RenderError::NoSuitableMemoryType));
}

#[test]
fn empty_requirement_matches_the_first_allowed_type() {
    assert_eq!(find_memory_type(&needs(0b0100), &device(), 0), Ok(2));
}

#[test]
fn types_beyond_the_mask_width_never_match() {
    let mut types = vec![MemoryType { property_flags: 0, heap_index: 0 }; 32];
    types.push(MemoryType { property_flags: 0x1, heap_index: 0 });
    let wide = MemoryProperties { memory_types: types };
    assert_eq!(find_memory_type(&needs(u32::MAX), &wide, 0x1), Err(RenderError::NoSuitableMemoryType));
    assert_eq!(find_memory_type(&needs(1 << 31), &wide, 0), Ok(31));
}

#[test]
fn index_lookup_agrees_with_the_search() {
    for bits in [0u32, 1, 2, 5, 8, 15] {
        for flags in [0u32, 1, 2, 6, 7, 8] {
            assert_eq!(
                get_memory_type_index(&device(), flags, &needs(bits)),
                find_memory_type(&needs(bits), &device(), flags)
            );
        }
    }
}
