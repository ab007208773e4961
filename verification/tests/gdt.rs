use bios_boot::gdt::{
    Descriptor, DescriptorTablePointer, GlobalDescriptorTable, Stack, TaskStateSegment,
    FLAG_ACCESSED, FLAG_DPL_RING_3, FLAG_EXECUTABLE, FLAG_GRANULARITY, FLAG_PRESENT,
    FLAG_READABLE_WRITABLE, FLAG_SIZE, FLAG_USER_SEGMENT, FLAT_LIMIT, GDT_ENTRIES, TSS_FLAGS,
    TSS_SIZE,
};

fn bit(n: u32) -> u64 {
    1u64 << n
}

#[test]
fn new_table_is_empty() {
    let gdt = GlobalDescriptorTable::new();
    assert_eq!(gdt.table, [0u64; 8]);
    assert_eq!(gdt.next_free, 1);
    assert!(!gdt.is_full());
}

#[test]
fn seven_descriptors_get_indices_one_to_seven() {
    let mut gdt = GlobalDescriptorTable::new();
    let entries = [
        Descriptor::kernel_code_segment(),
        Descriptor::kernel_data_segment(),
        Descriptor::user_code_segment(),
        Descriptor::user_data_segment(),
        Descriptor::tss_segment_at(0x1000),
        Descriptor::kernel_code_segment(),
        Descriptor::kernel_data_segment(),
    ];
    let mut expected: u16 = 1;
    for entry in entries.iter() {
        assert!(!gdt.is_full());
        let index = gdt.add_entry(entry.clone());
        assert_eq!(index, expected);
        assert_eq!(gdt.table[index as usize], entry.bits());
        expected += 1;
    }
    assert_eq!(gdt.table[0], 0);
    assert!(gdt.is_full());
    assert_eq!(gdt.next_free, 8);
}

#[test]
fn eighth_descriptor_is_refused() {
    let mut gdt = GlobalDescriptorTable::new();
    for i in 1..8u16 {
        assert_eq!(gdt.try_add_entry(Descriptor::kernel_data_segment()), Some(i));
    }
    let before = gdt.table;
    assert_eq!(gdt.try_add_entry(Descriptor::user_code_segment()), None);
    assert_eq!(gdt.table, before);
    assert_eq!(gdt.next_free, 8);
    assert!(gdt.is_full());
}

#[test]
fn add_entry_writes_only_its_slot() {
    let mut gdt = GlobalDescriptorTable::new();
    let index = gdt.add_entry(Descriptor::user_code_segment());
    assert_eq!(index, 1);
    assert_eq!(
        gdt.table,
        [0, 0x008f_fb00_0000_ffff, 0, 0, 0, 0, 0, 0]
    );
}

#[test]
fn add_entry_keeps_what_the_other_slots_hold() {
    let mut gdt = GlobalDescriptorTable::new();
    gdt.table[5] = 0x1234;
    gdt.table[1] = 0x5678;
    assert!(gdt.is_valid());
    assert_eq!(gdt.add_entry(Descriptor::kernel_code_segment()), 1);
    assert_eq!(
        gdt.table,
        [0, 0x00cf_9b00_0000_ffff, 0, 0, 0, 0x1234, 0, 0]
    );
    assert!(gdt.is_valid());
}

#[test]
fn table_validity() {
    let mut gdt = GlobalDescriptorTable::new();
    assert!(gdt.is_valid());
    gdt.next_free = 8;
    assert!(gdt.is_valid());
    gdt.next_free = 9;
    assert!(!gdt.is_valid());
    gdt.next_free = 0;
    assert!(!gdt.is_valid());
    gdt.next_free = 1;
    gdt.table[0] = 1;
    assert!(!gdt.is_valid());
}

#[test]
fn table_pointer_limit_is_last_byte() {
    let gdt = GlobalDescriptorTable::new();
    let ptr: DescriptorTablePointer = gdt.pointer(0x0009_f000);
    assert_eq!(ptr.limit, 63);
    assert_eq!(ptr.limit as usize, GDT_ENTRIES * 8 - 1);
    assert_eq!(ptr.base, 0x0009_f000);
}

#[test]
fn null_descriptor_is_zero() {
    assert_eq!(Descriptor::null_descriptor().bits(), 0);
}

#[test]
fn kernel_code_segment_bits() {
    let value = Descriptor::kernel_code_segment().bits();
    for n in [40u32, 41, 43, 44, 47, 54, 55] {
        assert_ne!(value & bit(n), 0, "bit {}", n);
    }
    assert_eq!(value & 0xffff, 0xffff);
    assert_eq!((value >> 48) & 0xf, 0b1111);
    assert_eq!(value, 0x00cf_9b00_0000_ffff);
    assert_eq!(
        value,
        FLAG_USER_SEGMENT
            | FLAG_PRESENT
            | FLAG_READABLE_WRITABLE
            | FLAG_ACCESSED
            | FLAG_SIZE
            | FLAG_EXECUTABLE
            | FLAT_LIMIT
    );
}

#[test]
fn kernel_data_segment_bits() {
    let value = Descriptor::kernel_data_segment().bits();
    assert_eq!(value, 0x00cf_9300_0000_ffff);
    assert_eq!(value & FLAG_EXECUTABLE, 0);
    assert_eq!(value & FLAG_DPL_RING_3, 0);
}

#[test]
fn user_data_segment_bits() {
    let value = Descriptor::user_data_segment().bits();
    assert_eq!(value & FLAG_DPL_RING_3, FLAG_DPL_RING_3);
    assert_ne!(value & bit(45), 0);
    assert_ne!(value & bit(46), 0);
    assert_eq!(value & bit(43), 0);
    for n in [40u32, 41, 44, 47, 54, 55] {
        assert_ne!(value & bit(n), 0, "bit {}", n);
    }
    assert_eq!(value & 0xffff, 0xffff);
    assert_eq!((value >> 48) & 0xf, 0b1111);
    assert_eq!(value, 0x00cf_f300_0000_ffff);
    assert_eq!(
        value,
        (Descriptor::kernel_code_segment().bits() & !FLAG_EXECUTABLE) | FLAG_DPL_RING_3
    );
    assert_eq!(value, Descriptor::kernel_data_segment().bits() | FLAG_DPL_RING_3);
}

#[test]
fn user_code_segment_bits() {
    let value = Descriptor::user_code_segment().bits();
    assert_eq!(value, 0x008f_fb00_0000_ffff);
    assert_eq!(value & FLAG_EXECUTABLE, FLAG_EXECUTABLE);
    assert_eq!(value & FLAG_DPL_RING_3, FLAG_DPL_RING_3);
}

#[test]
fn flat_segments_have_full_limit() {
    for d in [
        Descriptor::kernel_code_segment(),
        Descriptor::kernel_data_segment(),
        Descriptor::user_code_segment(),
        Descriptor::user_data_segment(),
    ] {
        assert_eq!(d.limit(), 0xf_ffff);
        assert_eq!(d.base_address(), 0);
        assert_eq!(d.bits() & FLAG_GRANULARITY, FLAG_GRANULARITY);
    }
}

#[test]
fn flag_constants_are_single_bits() {
    assert_eq!(FLAG_ACCESSED, bit(40));
    assert_eq!(FLAG_READABLE_WRITABLE, bit(41));
    assert_eq!(bios_boot::gdt::FLAG_CONFORMING, bit(42));
    assert_eq!(FLAG_EXECUTABLE, bit(43));
    assert_eq!(FLAG_USER_SEGMENT, bit(44));
    assert_eq!(FLAG_DPL_RING_3, 3u64 << 45);
    assert_eq!(FLAG_PRESENT, bit(47));
    assert_eq!(bios_boot::gdt::FLAG_AVAILABLE, bit(52));
    assert_eq!(bios_boot::gdt::FLAG_LONG_MODE, bit(53));
    assert_eq!(FLAG_SIZE, bit(54));
    assert_eq!(FLAG_GRANULARITY, bit(55));
    assert_eq!(FLAT_LIMIT, 0xffff | (0xfu64 << 48) | bit(55));
    assert_eq!(
        TSS_FLAGS,
        FLAG_PRESENT | FLAG_EXECUTABLE | FLAG_ACCESSED | FLAG_SIZE | FLAG_DPL_RING_3
    );
}

#[test]
fn tss_descriptor_exact_value() {
    let d = Descriptor::tss_segment_at(0x1234_5678);
    assert_eq!(d.bits(), 0x1240_e934_5678_0067);
    assert_eq!(d.base_address(), 0x1234_5678);
    assert_eq!(d.limit(), TSS_SIZE - 1);
    assert_eq!(d.limit(), 103);
}

#[test]
fn tss_descriptor_base_round_trips() {
    for address in [
        0u64,
        1,
        0x1000,
        0x00ff_ffff,
        0x0100_0000,
        0x7fff_ffff,
        0x8000_0000,
        0xdead_beef,
        0xffff_ffff,
    ] {
        let d = Descriptor::tss_segment_at(address);
        assert_eq!(d.base_address(), address);
        assert_eq!(d.bits() & TSS_FLAGS, TSS_FLAGS);
        assert_eq!(d.bits() & 0xffff, 103);
        assert_eq!((d.bits() >> 16) & 0x00ff_ffff, address & 0x00ff_ffff);
        assert_eq!(d.bits() >> 56, address >> 24);
    }
}

#[test]
fn tss_descriptor_keeps_low_32_bits_of_address() {
    let d = Descriptor::tss_segment_at(0x0000_7ffd_1234_5678);
    assert_eq!(d.base_address(), 0x1234_5678);
    assert_eq!(d.bits(), 0x1240_e934_5678_0067);
}

#[test]
fn tss_segment_describes_where_the_segment_lies() {
    let tss = TaskStateSegment::new();
    let d = Descriptor::tss_segment(&tss);
    let address = core::ptr::from_ref(&tss) as usize as u64;
    assert_eq!(d.base_address(), address & 0xffff_ffff);
    assert_eq!(d.bits(), Descriptor::tss_segment_at(address).bits());
    assert_eq!(d.limit(), 103);
}

#[test]
fn new_tss_is_zeroed() {
    let tss = TaskStateSegment::new();
    assert_eq!(tss.words(), [0u32; 26]);
    assert_eq!(tss.iomap_base, 0);
    for stack in tss.privilege_stack_table.iter() {
        assert_eq!(stack.esp, 0);
        assert_eq!(stack.ss, 0);
    }
    assert_eq!(tss.words().len() as u64 * 4, TSS_SIZE);
}

#[test]
fn tss_words_follow_the_hardware_layout() {
    let mut tss = TaskStateSegment::new();
    tss.prev_tss = 0x11;
    tss.privilege_stack_table[0] = Stack { esp: 0x9000, ss: 0x10 };
    tss.privilege_stack_table[2] = Stack { esp: 0x7000, ss: 0x18 };
    tss.cr3 = 0x1000;
    tss.ldt = 0x28;
    tss.trap = 1;
    tss.iomap_base = 104;
    let words = tss.words();
    assert_eq!(words[0], 0x11);
    assert_eq!(words[1], 0x9000);
    assert_eq!(words[2], 0x10);
    assert_eq!(words[3], 0);
    assert_eq!(words[4], 0);
    assert_eq!(words[5], 0x7000);
    assert_eq!(words[6], 0x18);
    assert_eq!(words[7], 0x1000);
    assert_eq!(words[24], 0x28);
    assert_eq!(words[25], 1 | (104 << 16));
}

#[test]
fn zero_stack() {
    let s = Stack::zero();
    assert_eq!(s.esp, 0);
    assert_eq!(s.ss, 0);
}
