use graphics::allocator::plan_allocation;
use graphics::allocator::AllocationError;
use graphics::allocator::MemoryRequirements;
use graphics::allocator::MemoryType;

fn req(size: u64, alignment: u64, memory_type_bits: u32) -> MemoryRequirements {
    MemoryRequirements { size, alignment, memory_type_bits }
}

fn mem_type(property_flags: u32) -> MemoryType {
    MemoryType { property_flags }
}

#[test]
fn packed_layout_and_type_selection() {
    let requirements = vec![req(100, 16, 0b11), req(50, 64, 0b10)];
    let types = vec![mem_type(0b100), mem_type(0b101)];
    let plan = plan_allocation(&requirements, &types, 0b100).unwrap();
    assert_eq!(plan.offsets, vec![0, 128]);
    assert_eq!(plan.size, 178);
    assert_eq!(plan.memory_type_index, 1);
}

#[test]
fn offsets_respect_alignment_and_order() {
    let requirements = vec![
        req(3, 4, u32::MAX),
        req(17, 256, u32::MAX),
        req(1, 2, u32::MAX),
        req(4096, 4096, u32::MAX),
    ];
    let types = vec![mem_type(0)];
    let plan = plan_allocation(&requirements, &types, 0).unwrap();
    assert_eq!(plan.offsets.len(), requirements.len());
    for (i, offset) in plan.offsets.iter().enumerate() {
        assert_eq!(offset % requirements[i].alignment, 0);
    }
    for i in 0..requirements.len() - 1 {
        assert!(plan.offsets[i] + requirements[i].size <= plan.offsets[i + 1]);
    }
    let last = requirements.len() - 1;
    assert!(plan.offsets[last] + requirements[last].size <= plan.size);
}

#[test]
fn empty_requirements_are_rejected() {
    let requirements = vec![];
    let types = vec![mem_type(0)];
    let result = plan_allocation(&requirements, &types, 0);
    assert_eq!(result.unwrap_err(), AllocationError::EmptyRequirements);
}

#[test]
fn disjoint_masks_are_incompatible() {
    let requirements = vec![req(16, 4, 0b01), req(16, 4, 0b10)];
    let types = vec![mem_type(0), mem_type(0), mem_type(0)];
    let result = plan_allocation(&requirements, &types, 0);
    assert_eq!(result.unwrap_err(), AllocationError::IncompatibleMemory);
}

#[test]
fn missing_property_flags_are_incompatible() {
    let requirements = vec![req(16, 4, u32::MAX)];
    let types = vec![mem_type(0b001), mem_type(0b010)];
    let result = plan_allocation(&requirements, &types, 0b100);
    assert_eq!(result.unwrap_err(), AllocationError::IncompatibleMemory);
}

#[test]
fn first_matching_type_wins() {
    let requirements = vec![req(8, 8, 0b1110)];
    let types = vec![mem_type(0b11), mem_type(0b01), mem_type(0b11), mem_type(0b11)];
    let plan = plan_allocation(&requirements, &types, 0b01).unwrap();
    assert_eq!(plan.memory_type_index, 1);
}
