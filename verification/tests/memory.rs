use bios_boot::boot::{BootParameters, KERNEL_START};
use bios_boot::frame_allocator::FrameAllocator;
use bios_boot::frames::{frame_containing, FrameSize, PHYS_ADDR_LIMIT, SIZE_2MIB, SIZE_4KIB};
use bios_boot::memory_map::{
    checked_max_physical_address, max_physical_address, memory_map_entry_count, regions_valid,
    PhysicalRegion, RegionKind, E820_USABLE,
};
use bios_boot::paging::{
    create_page_tables, identity_map_flags, identity_map_frames, identity_map_possible,
    try_create_page_tables, IDENTITY_MAP_FLAGS, PREMAPPED_END,
};

const GIB: u64 = 0x4000_0000;

fn usable(start: u64, len: u64) -> PhysicalRegion {
    PhysicalRegion { start, len, kind: RegionKind::Usable }
}

fn reserved(start: u64, len: u64) -> PhysicalRegion {
    PhysicalRegion { start, len, kind: RegionKind::Reserved(2) }
}

fn typical_map() -> Vec<PhysicalRegion> {
    vec![
        usable(0, 0x9_fc00),
        reserved(0x9_fc00, 0x400),
        reserved(0xf_0000, 0x1_0000),
        usable(0x10_0000, 0x7fe0_0000),
        reserved(0x7ff0_0000, 0x10_0000),
    ]
}

#[test]
fn max_address_is_greatest_end() {
    assert_eq!(max_physical_address(&typical_map()), 0x8000_0000);
    assert_eq!(max_physical_address(&[usable(0x1000, 0x2000)]), 0x3000);
    assert_eq!(
        max_physical_address(&[usable(0x5000, 0x1000), usable(0, 0x1000), reserved(0x2000, 0x3fff)]),
        0x6000
    );
}

#[test]
fn max_address_counts_reserved_regions() {
    assert_eq!(
        max_physical_address(&[usable(0, 0x1000), reserved(0xfffc_0000, 0x4_0000)]),
        0x1_0000_0000
    );
}

#[test]
fn max_address_of_zero_length_regions() {
    assert_eq!(max_physical_address(&[usable(0, 0)]), 0);
    assert_eq!(max_physical_address(&[usable(0x7000, 0), usable(0x3000, 0x1000)]), 0x7000);
}

#[test]
fn checked_max_address() {
    assert_eq!(checked_max_physical_address(&[]), None);
    assert_eq!(checked_max_physical_address(&typical_map()), Some(0x8000_0000));
    assert_eq!(
        checked_max_physical_address(&[usable(0, 0x1000), usable(u64::MAX - 1, 1)]),
        Some(u64::MAX)
    );
    assert_eq!(checked_max_physical_address(&[usable(0, 0x1000), usable(u64::MAX, 1)]), None);
    assert!(regions_valid(&typical_map()));
    assert!(regions_valid(&[]));
    assert!(!regions_valid(&[usable(2, u64::MAX)]));
}

#[test]
fn region_from_firmware_record() {
    let r = PhysicalRegion::from_firmware(0x10_0000, 0x4000, E820_USABLE);
    assert_eq!(r.start, 0x10_0000);
    assert_eq!(r.len, 0x4000);
    assert_eq!(r.kind, RegionKind::Usable);
    assert!(r.is_usable());
    assert!(r.is_valid());
    assert_eq!(r.end_address(), 0x10_4000);
    let r = PhysicalRegion::from_firmware(0xf_0000, 0x1_0000, 2);
    assert_eq!(r.kind, RegionKind::Reserved(2));
    assert!(!r.is_usable());
    let r = PhysicalRegion::from_firmware(0, 0, 0);
    assert_eq!(r.kind, RegionKind::Reserved(0));
}

#[test]
fn entry_count_is_low_byte() {
    assert_eq!(memory_map_entry_count(0), 0);
    assert_eq!(memory_map_entry_count(6), 6);
    assert_eq!(memory_map_entry_count(0xff), 255);
    assert_eq!(memory_map_entry_count(0x100), 0);
    assert_eq!(memory_map_entry_count(0xdead_be07), 7);
}

#[test]
fn frame_containing_clears_low_bits() {
    assert_eq!(frame_containing(0, FrameSize::Size4KiB), 0);
    assert_eq!(frame_containing(0xfff, FrameSize::Size4KiB), 0);
    assert_eq!(frame_containing(0x1000, FrameSize::Size4KiB), 0x1000);
    assert_eq!(frame_containing(0x40_1234, FrameSize::Size4KiB), 0x40_1000);
    assert_eq!(frame_containing(0x40_1234, FrameSize::Size2MiB), 0x40_0000);
    assert_eq!(frame_containing(0x7fff_ffff, FrameSize::Size2MiB), 0x7fe0_0000);
    assert_eq!(
        frame_containing(PHYS_ADDR_LIMIT - 1, FrameSize::Size2MiB),
        PHYS_ADDR_LIMIT - SIZE_2MIB
    );
    assert_eq!(FrameSize::Size4KiB.size(), 4096);
    assert_eq!(FrameSize::Size2MiB.size(), 2 * 1024 * 1024);
    assert_eq!(SIZE_4KIB, 4096);
}

#[test]
fn allocator_starts_behind_kernel() {
    let a = FrameAllocator::after_kernel(0x40_0000, 0x12_3456, typical_map());
    assert_eq!(a.next_frame, 0x52_4000);
    assert_eq!(a.reserved_start, 0x40_0000);
    assert_eq!(a.reserved_end, 0x52_3456);
    // an image that ends on a frame boundary: the next frame is the boundary
    let a = FrameAllocator::after_kernel(0x40_0000, 0x2000, typical_map());
    assert_eq!(a.next_frame, 0x40_2000);
    let a = FrameAllocator::after_kernel(0x40_0000, 1, typical_map());
    assert_eq!(a.next_frame, 0x40_1000);
    let a = FrameAllocator::after_kernel(0x40_0000, 0, typical_map());
    assert_eq!(a.next_frame, 0x40_0000);
}

#[test]
fn kernel_image_validity() {
    assert!(FrameAllocator::kernel_image_valid(KERNEL_START, 0x10_0000));
    assert!(FrameAllocator::kernel_image_valid(0, 1));
    assert!(FrameAllocator::kernel_image_valid(1, 0));
    assert!(!FrameAllocator::kernel_image_valid(0, 0));
    assert!(FrameAllocator::kernel_image_valid(0, PHYS_ADDR_LIMIT));
    assert!(!FrameAllocator::kernel_image_valid(1, PHYS_ADDR_LIMIT));
    assert!(!FrameAllocator::kernel_image_valid(u64::MAX, u64::MAX));
}

#[test]
fn allocator_hands_out_rising_frames() {
    let mut a = FrameAllocator::after_kernel(0x40_0000, 0x3001, typical_map());
    assert_eq!(a.allocate_frame(), Some(0x40_4000));
    assert_eq!(a.allocate_frame(), Some(0x40_5000));
    assert_eq!(a.allocate(FrameSize::Size4KiB), Some(0x40_6000));
    assert_eq!(a.next_frame, 0x40_7000);
    assert_eq!(a.allocate(FrameSize::Size2MiB), Some(0x60_0000));
    assert_eq!(a.next_frame, 0x80_0000);
    assert_eq!(a.allocate_frame(), Some(0x80_0000));
}

#[test]
fn allocator_never_touches_kernel() {
    let kernel_start: u64 = 0x40_0000;
    let kernel_size: u64 = 0x5_4321;
    let mut a = FrameAllocator::after_kernel(kernel_start, kernel_size, typical_map());
    for i in 0..2000u64 {
        let size = if i % 7 == 3 { FrameSize::Size2MiB } else { FrameSize::Size4KiB };
        let bytes = size.size();
        match a.allocate(size) {
            Some(f) => {
                assert!(f + bytes <= kernel_start || f >= kernel_start + kernel_size);
                assert_eq!(f % bytes, 0);
                assert!(f >= 0x10_0000 && f + bytes <= 0x7ff0_0000);
            }
            None => break,
        }
    }
}

#[test]
fn allocator_skips_reserved_and_small_regions() {
    let regions = vec![
        usable(0x1000, 0x800),
        reserved(0x2000, 0x1_0000),
        usable(0x1_2345, 0x2000),
        usable(0x10_0000, 0x2000),
    ];
    let mut a = FrameAllocator::new_starting_at(0, regions);
    // 0x1000..0x1800 is too small, 0x2000.. is reserved, 0x12345.. holds one
    // aligned frame
    assert_eq!(a.allocate_frame(), Some(0x1_3000));
    assert_eq!(a.allocate_frame(), Some(0x10_0000));
    assert_eq!(a.allocate_frame(), Some(0x10_1000));
    assert_eq!(a.allocate_frame(), None);
    assert_eq!(a.next_frame, 0x10_2000);
    assert_eq!(a.allocate_frame(), None);
    assert_eq!(a.next_frame, 0x10_2000);
}

#[test]
fn allocator_takes_lowest_frame_whatever_the_order() {
    let regions = vec![usable(0x20_0000, 0x2000), usable(0x10_0000, 0x1000)];
    let mut a = FrameAllocator::new_starting_at(0x1000, regions);
    assert_eq!(a.allocate_frame(), Some(0x10_0000));
    assert_eq!(a.allocate_frame(), Some(0x20_0000));
    assert_eq!(a.allocate_frame(), Some(0x20_1000));
    assert_eq!(a.allocate_frame(), None);
}

#[test]
fn allocator_exhausted() {
    let mut a = FrameAllocator::new_starting_at(0, vec![]);
    assert_eq!(a.allocate_frame(), None);
    let mut a = FrameAllocator::new_starting_at(0, vec![reserved(0, 0x10_0000)]);
    assert_eq!(a.allocate_frame(), None);
    let mut a = FrameAllocator::new_starting_at(0x5000, vec![usable(0, 0x5000)]);
    assert_eq!(a.allocate_frame(), None);
    let mut a = FrameAllocator::new_starting_at(0, vec![usable(0x1000, 0x1f_f000)]);
    assert_eq!(a.allocate(FrameSize::Size2MiB), None);
    assert_eq!(a.next_frame, 0);
    assert_eq!(a.allocate_frame(), Some(0x1000));
}

#[test]
fn allocator_stays_below_address_limit() {
    let mut a = FrameAllocator::new_starting_at(
        PHYS_ADDR_LIMIT - 0x2000,
        vec![usable(0, u64::MAX)],
    );
    assert_eq!(a.allocate_frame(), Some(PHYS_ADDR_LIMIT - 0x2000));
    assert_eq!(a.allocate_frame(), Some(PHYS_ADDR_LIMIT - 0x1000));
    assert_eq!(a.allocate_frame(), None);
    assert_eq!(a.next_frame, PHYS_ADDR_LIMIT);
}

#[test]
fn identity_map_of_two_gib() {
    let frames = identity_map_frames(2 * GIB);
    assert_eq!(frames.len(), 512);
    assert_eq!(frames[0], GIB);
    assert_eq!(frames[511], 2 * GIB - SIZE_2MIB);
    for i in 0..frames.len() {
        assert_eq!(frames[i], GIB + i as u64 * SIZE_2MIB);
        assert_eq!(frames[i] % SIZE_2MIB, 0);
    }
    for pair in frames.windows(2) {
        assert_eq!(pair[1], pair[0] + SIZE_2MIB);
    }
}

#[test]
fn identity_map_edges() {
    assert_eq!(PREMAPPED_END, GIB);
    assert!(identity_map_frames(1).is_empty());
    assert!(identity_map_frames(GIB).is_empty());
    assert_eq!(identity_map_frames(GIB + 1), vec![GIB]);
    assert_eq!(identity_map_frames(GIB + SIZE_2MIB), vec![GIB]);
    assert_eq!(identity_map_frames(GIB + SIZE_2MIB + 1), vec![GIB, GIB + SIZE_2MIB]);
    assert_eq!(identity_map_frames(0x8000_0000 - 0x10_0000).len(), 512);
}

#[test]
fn identity_map_flags_are_present_and_writable() {
    assert_eq!(identity_map_flags(), 3);
    assert_eq!(IDENTITY_MAP_FLAGS, 3);
}

#[test]
fn identity_map_bounds() {
    assert!(!identity_map_possible(0));
    assert!(identity_map_possible(1));
    assert!(identity_map_possible(PHYS_ADDR_LIMIT - SIZE_2MIB));
    assert!(!identity_map_possible(PHYS_ADDR_LIMIT - SIZE_2MIB + 1));
    assert!(!identity_map_possible(u64::MAX));
}

#[test]
fn kernel_table_gets_next_unused_frame() {
    let mut a = FrameAllocator::after_kernel(0x40_0000, 0x1000, typical_map());
    assert!(a.has_free_frame(FrameSize::Size4KiB));
    let tables = create_page_tables(0x1000, &mut a);
    assert_eq!(tables.loader_level_4_frame, 0x1000);
    assert_eq!(tables.kernel_level_4_frame, 0x40_1000);
    assert_eq!(a.next_frame, 0x40_2000);
    let tables = try_create_page_tables(0x1000, &mut a).unwrap();
    assert_eq!(tables.loader_level_4_frame, 0x1000);
    assert_eq!(tables.kernel_level_4_frame, 0x40_2000);
    assert_eq!(a.next_frame, 0x40_3000);
}

#[test]
fn no_kernel_table_without_a_frame() {
    let mut empty = FrameAllocator::new_starting_at(0, vec![]);
    assert!(!empty.has_free_frame(FrameSize::Size4KiB));
    assert!(try_create_page_tables(0x1000, &mut empty).is_none());
    assert_eq!(empty.next_frame, 0);
    let mut used = FrameAllocator::new_starting_at(0x2000, vec![usable(0, 0x2000)]);
    assert!(try_create_page_tables(0x1000, &mut used).is_none());
    assert_eq!(used.next_frame, 0x2000);
}

#[test]
fn free_frames_are_seen_without_being_taken() {
    let a = FrameAllocator::new_starting_at(0, vec![usable(0x1800, 0x3000), usable(0x40_0000, 0x40_0000)]);
    assert_eq!(a.lowest_free_frame(FrameSize::Size4KiB), Some(0x2000));
    assert_eq!(a.lowest_free_frame(FrameSize::Size2MiB), Some(0x40_0000));
    assert!(a.has_free_frame(FrameSize::Size4KiB));
    assert!(a.has_free_frame(FrameSize::Size2MiB));
    assert_eq!(a.next_frame, 0);
    let b = FrameAllocator::new_starting_at(0, vec![usable(0x1800, 0x3000)]);
    assert!(b.has_free_frame(FrameSize::Size4KiB));
    assert!(!b.has_free_frame(FrameSize::Size2MiB));
    assert_eq!(b.lowest_free_frame(FrameSize::Size2MiB), None);
    assert!(b.is_valid());
}

#[test]
fn boot_plan_for_two_gib_machine() {
    let params = BootParameters {
        kernel_start: KERNEL_START,
        kernel_size: 0x8_0001,
        regions: typical_map(),
    };
    assert!(params.is_valid());
    let mut plan = params.plan();
    assert_eq!(plan.max_phys_addr, 0x8000_0000);
    assert_eq!(plan.frame_allocator.next_frame, 0x48_1000);
    assert_eq!(plan.frame_allocator.regions.len(), 5);
    assert_eq!(plan.identity_frames.len(), 512);
    assert_eq!(plan.identity_frames[0], GIB);
    assert_eq!(plan.identity_flags, 3);
    assert_eq!(plan.frame_allocator.allocate_frame(), Some(0x48_1000));
}

#[test]
fn boot_parameters_validity() {
    let ok = BootParameters { kernel_start: KERNEL_START, kernel_size: 1, regions: typical_map() };
    assert!(ok.is_valid());
    let empty = BootParameters { kernel_start: KERNEL_START, kernel_size: 1, regions: vec![] };
    assert!(!empty.is_valid());
    let no_kernel = BootParameters { kernel_start: 0, kernel_size: 0, regions: typical_map() };
    assert!(!no_kernel.is_valid());
    let zero = BootParameters { kernel_start: KERNEL_START, kernel_size: 1, regions: vec![usable(0, 0)] };
    assert!(!zero.is_valid());
    let overflow = BootParameters {
        kernel_start: KERNEL_START,
        kernel_size: 1,
        regions: vec![usable(u64::MAX, 1), usable(0, 0x1000)],
    };
    assert!(!overflow.is_valid());
    let too_high = BootParameters {
        kernel_start: KERNEL_START,
        kernel_size: 1,
        regions: vec![usable(0, PHYS_ADDR_LIMIT)],
    };
    assert!(!too_high.is_valid());
    let highest = BootParameters {
        kernel_start: KERNEL_START,
        kernel_size: 1,
        regions: vec![usable(0, PHYS_ADDR_LIMIT - SIZE_2MIB)],
    };
    assert!(highest.is_valid());
}
