use pcics::capabilities::enhanced_allocation::{BarEquivalentIndicator, EnhancedAllocation, EnhancedAllocationEntry, ResourceDefinition, ResourceRangeAddress};

#[test]
fn enhanced_allocation_entry_with_64_bit_addresses() {
    let data = [
        0x14, 0x00, // Header
        0x01, 0x00, // Num Entries
        0b10_0100, 0x00, 0x42, 0b1100_0000, // First DW
        0x00 | 0b11, 0x11, 0x22, 0x33, // Base[31:2]
        0x00 | 0b10, 0x11, 0x22, 0x33, // MaxOffset[31:2]
        0x44, 0x55, 0x66, 0x77, // Base[63:32]
        0x44, 0x55, 0x66, 0x77, // MaxOffset[63:32]
    ];
    let sample = EnhancedAllocationEntry {
        entry_size: 4,
        bar_equivalent_indicator: BarEquivalentIndicator::Location18h,
        primary_properties: ResourceDefinition::MemorySpaceNonPrefetchable,
        secondary_properties: ResourceDefinition::Reserved(0x42),
        writable: true,
        enable: true,
        base: ResourceRangeAddress::U64(0x7766554433221100),
        max_offset: ResourceRangeAddress::U64(0x7766554433221100 | 0b11),
    };
    let mut ea = EnhancedAllocation::try_new(&data[2..], false).unwrap();
    let result = ea.entries.next();
    assert_eq!(Some(sample), result);
}
