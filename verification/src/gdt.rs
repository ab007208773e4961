//! The segment descriptor table, its descriptors and the task-state segment.

use crate::bits::{
    bit_range, fits_bit_range, get_bits, set_bit, set_bits, with_bit, with_bit_range,
};
use vstd::prelude::*;

verus! {

/// Set by the processor when the segment is accessed (bit 40).
pub const FLAG_ACCESSED: u64 = 0x0000_0100_0000_0000;

/// Data segments: writable. Code segments: readable (bit 41).
pub const FLAG_READABLE_WRITABLE: u64 = 0x0000_0200_0000_0000;

/// Marks a code segment as conforming (bit 42).
pub const FLAG_CONFORMING: u64 = 0x0000_0400_0000_0000;

/// Must be set for code segments (bit 43).
pub const FLAG_EXECUTABLE: u64 = 0x0000_0800_0000_0000;

/// Set for code and data segments, clear for system segments (bit 44).
pub const FLAG_USER_SEGMENT: u64 = 0x0000_1000_0000_0000;

/// Descriptor privilege level 3 (bits 45 and 46).
pub const FLAG_DPL_RING_3: u64 = 0x0000_6000_0000_0000;

/// Must be set for any segment that is to be used (bit 47).
pub const FLAG_PRESENT: u64 = 0x0000_8000_0000_0000;

/// Free for use by system software (bit 52).
pub const FLAG_AVAILABLE: u64 = 0x0010_0000_0000_0000;

/// Must be set for long-mode code segments (bit 53).
pub const FLAG_LONG_MODE: u64 = 0x0020_0000_0000_0000;

/// The segment holds 32-bit code or data (bit 54).
pub const FLAG_SIZE: u64 = 0x0040_0000_0000_0000;

/// The limit counts 4 KiB pages instead of bytes (bit 55).
pub const FLAG_GRANULARITY: u64 = 0x0080_0000_0000_0000;

/// The limit field filled with ones (bits 0 to 15 and 48 to 51) together with
/// the granularity flag.
pub const FLAT_LIMIT: u64 = 0x008f_0000_0000_ffff;

/// The size in bytes of the task-state segment as the processor reads it.
pub const TSS_SIZE: u64 = 104;

/// The number of slots in the table.
pub const GDT_ENTRIES: usize = 8;

/// The operand of the instruction that loads a descriptor table.
#[derive(Debug, Clone, Copy)]
pub struct DescriptorTablePointer {
    /// The offset of the last byte of the table.
    pub limit: u16,
    /// The address of the first byte of the table.
    pub base: u32,
}

/// A table of eight descriptors. Slot 0 holds the null descriptor; the slots
/// from 1 on are handed out in order.
#[derive(Debug, Clone)]
pub struct GlobalDescriptorTable {
    pub table: [u64; 8],
    pub next_free: usize,
}

impl GlobalDescriptorTable {
    /// The null descriptor stands in slot 0, and the cursor lies behind it
    /// and not behind the end of the table.
    pub open spec fn wf(self) -> bool {
        &&& 1 <= self.next_free <= GDT_ENTRIES
        &&& self.table[0] == 0
    }

    /// The slots that have not been handed out are still empty.
    pub open spec fn unused_slots_empty(self) -> bool {
        forall|i: int| self.next_free <= i < GDT_ENTRIES ==> self.table[i] == 0
    }

    /// Creates an empty GDT.
    #[inline]
    pub fn new() -> (gdt: GlobalDescriptorTable)
        ensures
            gdt.wf(),
            gdt.unused_slots_empty(),
            gdt.next_free == 1,
            gdt.table@ == Seq::new(8, |i: int| 0u64),
    {
        let gdt = GlobalDescriptorTable { table: [0;8], next_free: 1 };
        assert(gdt.table@ =~= Seq::new(8, |i: int| 0u64));
        gdt
    }

    /// Whether the table is in order: the null descriptor in slot 0 and the
    /// cursor behind it and not behind the end of the table.
    pub fn is_valid(&self) -> (valid: bool)
        ensures
            valid == self.wf(),
    {
        1 <= self.next_free && self.next_free <= GDT_ENTRIES && self.table[0] == 0
    }

    /// Whether every slot is taken, so that nothing more can be added.
    pub fn is_full(&self) -> (full: bool)
        ensures
            full == (self.next_free >= GDT_ENTRIES),
    {
        self.next_free >= GDT_ENTRIES
    }

    /// Adds the given segment descriptor to the GDT, returning the index of
    /// its slot. The table must have a free slot.
    #[inline]
    pub fn add_entry(&mut self, entry: Descriptor) -> (index: u16)
        requires
            old(self).wf(),
            old(self).next_free < GDT_ENTRIES,
        ensures
            final(self).wf(),
            index == old(self).next_free,
            final(self).next_free == old(self).next_free + 1,
            final(self).table@ == old(self).table@.update(index as int, entry.value()),
            old(self).unused_slots_empty() ==> final(self).unused_slots_empty(),
    {
        let index: usize = self.push(entry.0);
        index as u16
    }

    /// Adds the given segment descriptor if a slot is free, returning the
    /// index of its slot, and leaves a full table as it is.
    pub fn try_add_entry(&mut self, entry: Descriptor) -> (index: Option<u16>)
        requires
            old(self).wf(),
        ensures
            final(self).wf(),
            old(self).next_free < GDT_ENTRIES ==> index == Some(old(self).next_free as u16)
                && final(self).next_free == old(self).next_free + 1 && final(self).table@ == old(
                self,
            ).table@.update(old(self).next_free as int, entry.value()),
            old(self).next_free >= GDT_ENTRIES ==> index.is_none() && *final(self) == *old(self),
            old(self).unused_slots_empty() ==> final(self).unused_slots_empty(),
    {
        if self.is_full() {
            None
        } else {
            Some(self.add_entry(entry))
        }
    }

    /// The operand with which a table at address `base` is loaded: its limit
    /// is the length of the table in bytes less one.
    pub fn pointer(&self, base: u32) -> (ptr: DescriptorTablePointer)
        ensures
            ptr.base == base,
            ptr.limit == GDT_ENTRIES * 8 - 1,
    {
        DescriptorTablePointer { base, limit: 63 }
    }

    #[inline]
    fn push(&mut self, value: u64) -> (index: usize)
        requires
            old(self).wf(),
            old(self).next_free < GDT_ENTRIES,
        ensures
            final(self).wf(),
            index == old(self).next_free,
            final(self).next_free == old(self).next_free + 1,
            final(self).table@ == old(self).table@.update(index as int, value),
            old(self).unused_slots_empty() ==> final(self).unused_slots_empty(),
    {
        let index: usize = self.next_free;
        self.table[index] = value;
        self.next_free += 1;
        index
    }
}

/// A 64-bit segment descriptor.
#[derive(Debug, Clone)]
pub struct Descriptor(u64);

/// A descriptor word whose limit spans the whole address space.
pub open spec fn flat_segment(flags: u64) -> u64 {
    flags | FLAT_LIMIT
}

impl Descriptor {
    /// The descriptor as the word that the processor reads.
    pub closed spec fn value(self) -> u64 {
        self.0
    }

    /// The descriptor as the word that the processor reads.
    pub fn bits(&self) -> (r: u64)
        ensures
            r == self.value(),
    {
        self.0
    }

    /// Creates a null descriptor.
    #[inline]
    pub fn null_descriptor() -> (d: Descriptor)
        ensures
            d.value() == 0,
    {
        Descriptor(0)
    }

    /// Creates a segment descriptor for a protected mode kernel code segment.
    #[inline]
    pub fn kernel_code_segment() -> (d: Descriptor)
        ensures
            d.value() == flat_segment(
                FLAG_USER_SEGMENT | FLAG_PRESENT | FLAG_READABLE_WRITABLE | FLAG_ACCESSED
                    | FLAG_SIZE | FLAG_EXECUTABLE,
            ),
            d.value() == 0x00cf_9b00_0000_ffff,
    {
        let flags: u64 = FLAG_USER_SEGMENT | FLAG_PRESENT | FLAG_READABLE_WRITABLE | FLAG_ACCESSED
            | FLAG_SIZE | FLAG_EXECUTABLE;
        assert(flat_segment(
            FLAG_USER_SEGMENT | FLAG_PRESENT | FLAG_READABLE_WRITABLE | FLAG_ACCESSED | FLAG_SIZE
                | FLAG_EXECUTABLE,
        ) == 0x00cf_9b00_0000_ffffu64) by (bit_vector);
        Descriptor(flags).with_flat_limit()
    }

    /// Creates a segment descriptor for a protected mode kernel data segment.
    #[inline]
    pub fn kernel_data_segment() -> (d: Descriptor)
        ensures
            d.value() == flat_segment(
                FLAG_USER_SEGMENT | FLAG_PRESENT | FLAG_READABLE_WRITABLE | FLAG_ACCESSED
                    | FLAG_SIZE,
            ),
            d.value() == 0x00cf_9300_0000_ffff,
    {
        let flags: u64 = FLAG_USER_SEGMENT | FLAG_PRESENT | FLAG_READABLE_WRITABLE | FLAG_ACCESSED
            | FLAG_SIZE;
        assert(flat_segment(
            FLAG_USER_SEGMENT | FLAG_PRESENT | FLAG_READABLE_WRITABLE | FLAG_ACCESSED | FLAG_SIZE,
        ) == 0x00cf_9300_0000_ffffu64) by (bit_vector);
        Descriptor(flags).with_flat_limit()
    }

    /// Creates a segment descriptor for a protected mode ring 3 data segment:
    /// the flags of the kernel data segment, and ring 3 besides.
    #[inline]
    pub fn user_data_segment() -> (d: Descriptor)
        ensures
            d.value() == flat_segment(
                FLAG_USER_SEGMENT | FLAG_PRESENT | FLAG_READABLE_WRITABLE | FLAG_ACCESSED
                    | FLAG_SIZE | FLAG_DPL_RING_3,
            ),
            d.value() == 0x00cf_f300_0000_ffff,
    {
        let flags: u64 = FLAG_USER_SEGMENT | FLAG_PRESENT | FLAG_READABLE_WRITABLE | FLAG_ACCESSED
            | FLAG_SIZE | FLAG_DPL_RING_3;
        assert(flat_segment(
            FLAG_USER_SEGMENT | FLAG_PRESENT | FLAG_READABLE_WRITABLE | FLAG_ACCESSED | FLAG_SIZE
                | FLAG_DPL_RING_3,
        ) == 0x00cf_f300_0000_ffffu64) by (bit_vector);
        Descriptor(flags).with_flat_limit()
    }

    /// Creates a segment descriptor for a protected mode ring 3 code segment.
    #[inline]
    pub fn user_code_segment() -> (d: Descriptor)
        ensures
            d.value() == flat_segment(
                FLAG_USER_SEGMENT | FLAG_PRESENT | FLAG_READABLE_WRITABLE | FLAG_ACCESSED
                    | FLAG_EXECUTABLE | FLAG_DPL_RING_3,
            ),
            d.value() == 0x008f_fb00_0000_ffff,
    {
        let flags: u64 = FLAG_USER_SEGMENT | FLAG_PRESENT | FLAG_READABLE_WRITABLE | FLAG_ACCESSED
            | FLAG_EXECUTABLE | FLAG_DPL_RING_3;
        assert(flat_segment(
            FLAG_USER_SEGMENT | FLAG_PRESENT | FLAG_READABLE_WRITABLE | FLAG_ACCESSED
                | FLAG_EXECUTABLE | FLAG_DPL_RING_3,
        ) == 0x008f_fb00_0000_ffffu64) by (bit_vector);
        Descriptor(flags).with_flat_limit()
    }

    /// Creates a TSS system descriptor for the given TSS, which must stay
    /// where it is for as long as the descriptor is in use: the descriptor
    /// holds the low 32 bits of the address at which `tss` lies now.
    ///
    /// A `TaskStateSegment` has no fixed layout in memory. The descriptor
    /// that the processor is to use is built by `tss_segment_at`, from the
    /// address at which the image that `words` gives has been laid down.
    #[inline]
    pub fn tss_segment(tss: &TaskStateSegment) -> (d: Descriptor)
        ensures
            d.value() == tss_descriptor(descriptor_base(d.value())),
    {
        let address: u64 = address_of(tss);
        let d = Descriptor::tss_segment_at(address);
        proof {
            lemma_tss_descriptor_of_base(address);
        }
        d
    }

    /// Creates a TSS system descriptor for a TSS that lies at `address`. Only
    /// the low 32 bits of the address enter the descriptor.
    pub fn tss_segment_at(address: u64) -> (d: Descriptor)
        ensures
            d.value() == tss_descriptor(address),
    {
        let word: u64 = FLAG_PRESENT | FLAG_EXECUTABLE | FLAG_ACCESSED | FLAG_SIZE
            | FLAG_DPL_RING_3;
        let base_low: u64 = get_bits(address, 0, 24);
        let base_high: u64 = get_bits(address, 24, 32);
        let limit: u64 = get_bits(TSS_SIZE - 1, 0, 16);
        assert(fits_bit_range(base_low, 16, 40) && fits_bit_range(base_high, 56, 64)
            && fits_bit_range(limit, 0, 16)) by (bit_vector)
            requires
                base_low == bit_range(address, 0, 24),
                base_high == bit_range(address, 24, 32),
                limit == bit_range(103, 0, 16),
        ;
        // base
        let with_low: u64 = set_bits(word, 16, 40, base_low);
        let with_base: u64 = set_bits(with_low, 56, 64, base_high);
        // limit (one less than the size, since the bound is inclusive)
        let with_limit: u64 = set_bits(with_base, 0, 16, limit);
        assert(with_limit == tss_descriptor(address)) by (bit_vector)
            requires
                word == FLAG_PRESENT | FLAG_EXECUTABLE | FLAG_ACCESSED | FLAG_SIZE
                    | FLAG_DPL_RING_3,
                base_low == bit_range(address, 0, 24),
                base_high == bit_range(address, 24, 32),
                limit == bit_range(103, 0, 16),
                with_low == with_bit_range(word, 16, 40, base_low),
                with_base == with_bit_range(with_low, 56, 64, base_high),
                with_limit == with_bit_range(with_base, 0, 16, limit),
        ;
        Descriptor(with_limit)
    }

    /// The base address that the descriptor holds in its bits 16 to 39 and 56
    /// to 63.
    pub fn base_address(&self) -> (base: u64)
        ensures
            base == descriptor_base(self.value()),
    {
        let word: u64 = self.0;
        let low: u64 = get_bits(word, 16, 40);
        let high: u64 = get_bits(word, 56, 64);
        assert(low | (high << 24) == descriptor_base(word)) by (bit_vector)
            requires
                low == bit_range(word, 16, 40),
                high == bit_range(word, 56, 64),
        ;
        low | (high << 24)
    }

    /// The segment limit that the descriptor holds in its bits 0 to 15 and 48
    /// to 51.
    pub fn limit(&self) -> (limit: u64)
        ensures
            limit == descriptor_limit(self.value()),
    {
        let word: u64 = self.0;
        let low: u64 = get_bits(word, 0, 16);
        let high: u64 = get_bits(word, 48, 52);
        assert(low | (high << 16) == descriptor_limit(word)) by (bit_vector)
            requires
                low == bit_range(word, 0, 16),
                high == bit_range(word, 48, 52),
        ;
        low | (high << 16)
    }

    /// Fills the limit field with ones and sets the granularity flag.
    fn with_flat_limit(self) -> (d: Descriptor)
        ensures
            d.value() == flat_segment(self.value()),
    {
        let old_word: u64 = self.0;
        assert(fits_bit_range(0xffff, 0, 16)) by (bit_vector);
        // limit low
        let word: u64 = set_bits(old_word, 0, 16, 0xffff);
        // limit high
        let word: u64 = set_bit(word, 48, true);
        let word: u64 = set_bit(word, 49, true);
        let word: u64 = set_bit(word, 50, true);
        let word: u64 = set_bit(word, 51, true);
        // granularity
        let word: u64 = word | FLAG_GRANULARITY;
        assert(word == flat_segment(old_word)) by (bit_vector)
            requires
                word == with_bit(
                    with_bit(
                        with_bit(
                            with_bit(with_bit_range(old_word, 0, 16, 0xffff), 48, true),
                            49,
                            true,
                        ),
                        50,
                        true,
                    ),
                    51,
                    true,
                ) | FLAG_GRANULARITY,
        ;
        Descriptor(word)
    }
}

/// The flags of a TSS system descriptor: present, executable, accessed, size
/// and ring 3.
pub const TSS_FLAGS: u64 = 0x0040_e900_0000_0000;

/// The word of the TSS system descriptor for a segment at `address`: the
/// flags, the low 24 bits of the address in bits 16 to 39, its next 8 bits in
/// bits 56 to 63, and the size less one in the limit.
pub open spec fn tss_descriptor(address: u64) -> u64 {
    TSS_FLAGS | ((address & 0x00ff_ffff) << 16) | (((address >> 24) & 0xff) << 56) | 103
}

/// The 32-bit base address in a descriptor word.
pub open spec fn descriptor_base(word: u64) -> u64 {
    ((word >> 16) & 0x00ff_ffff) | (((word >> 56) & 0xff) << 24)
}

/// The 20-bit segment limit in a descriptor word.
pub open spec fn descriptor_limit(word: u64) -> u64 {
    (word & 0xffff) | (((word >> 48) & 0xf) << 16)
}

/// A TSS system descriptor is the one built for the base address it holds.
proof fn lemma_tss_descriptor_of_base(address: u64)
    ensures
        tss_descriptor(descriptor_base(tss_descriptor(address))) == tss_descriptor(address),
{
    assert(tss_descriptor(descriptor_base(tss_descriptor(address))) == tss_descriptor(address))
        by (bit_vector);
}

/// Building a TSS system descriptor for an address of at most 32 bits and
/// reading the base address back gives the address; the limit read back is
/// the size of the segment less one.
pub proof fn lemma_tss_base_round_trip(address: u64)
    requires
        address <= 0xffff_ffff,
    ensures
        descriptor_base(tss_descriptor(address)) == address,
        descriptor_limit(tss_descriptor(address)) == TSS_SIZE - 1,
{
    assert(address <= 0xffff_ffff ==> descriptor_base(tss_descriptor(address)) == address)
        by (bit_vector);
    assert(descriptor_limit(tss_descriptor(address)) == 103) by (bit_vector);
}

/// For any address, the base read back from its TSS system descriptor is the
/// address cut to 32 bits.
pub proof fn lemma_tss_base_truncates(address: u64)
    ensures
        descriptor_base(tss_descriptor(address)) == address & 0xffff_ffff,
{
    assert(descriptor_base(tss_descriptor(address)) == address & 0xffff_ffff) by (bit_vector);
}

/// The four flat segments: each has the whole limit field and the granularity
/// flag set, and the flags of its kind.
pub proof fn lemma_flat_segment_bits(flags: u64)
    ensures
        flat_segment(flags) & 0xffff == 0xffff,
        (flat_segment(flags) >> 48) & 0xf == 0xf,
        flat_segment(flags) & FLAG_GRANULARITY == FLAG_GRANULARITY,
        flat_segment(flags) & flags == flags,
        descriptor_limit(flat_segment(flags)) == 0xf_ffff,
{
    assert(flat_segment(flags) & 0xffff == 0xffff) by (bit_vector);
    assert((flat_segment(flags) >> 48) & 0xf == 0xf) by (bit_vector);
    assert(flat_segment(flags) & FLAG_GRANULARITY == FLAG_GRANULARITY) by (bit_vector);
    assert(flat_segment(flags) & flags == flags) by (bit_vector);
    assert(descriptor_limit(flat_segment(flags)) == 0xf_ffff) by (bit_vector);
}

/// The address at which the referenced segment lies, by `core::ptr::from_ref`
/// of std. Nothing is claimed of the number.
#[verifier::external_body]
fn address_of(tss: &TaskStateSegment) -> (address: u64) {
    core::ptr::from_ref(tss) as usize as u64
}

/// A stack pointer with its stack segment.
#[derive(Debug, Clone, Copy)]
pub struct Stack {
    pub esp: u32,
    pub ss: u32,
}

impl Stack {
    /// The stack with a zero pointer in segment zero.
    pub fn zero() -> (s: Stack)
        ensures
            s.esp == 0,
            s.ss == 0,
    {
        Stack { esp: 0, ss: 0 }
    }
}

/// The 32-bit task-state segment.
#[derive(Debug, Clone, Copy)]
pub struct TaskStateSegment {
    /// Used for hardware task switching.
    pub prev_tss: u32,
    /// The stack pointers and stack segments for privilege levels 0 to 2.
    pub privilege_stack_table: [Stack; 3],
    pub cr3: u32,
    pub eip: u32,
    pub eflags: u32,
    pub eax: u32,
    pub ecx: u32,
    pub edx: u32,
    pub ebx: u32,
    pub esp: u32,
    pub ebp: u32,
    pub esi: u32,
    pub edi: u32,
    pub es: u32,
    pub cs: u32,
    pub ss: u32,
    pub ds: u32,
    pub fs: u32,
    pub gs: u32,
    pub ldt: u32,
    pub trap: u16,
    /// The offset of the I/O permission bitmap from the start of the segment.
    pub iomap_base: u16,
}

impl TaskStateSegment {
    /// The segment as the processor reads it: 26 little-endian 32-bit words,
    /// the previous task link first, then the three stacks, the register save
    /// slots, and last the trap word with the I/O map base in its upper half.
    pub open spec fn image(self) -> Seq<u32> {
        seq![
            self.prev_tss,
            self.privilege_stack_table[0].esp,
            self.privilege_stack_table[0].ss,
            self.privilege_stack_table[1].esp,
            self.privilege_stack_table[1].ss,
            self.privilege_stack_table[2].esp,
            self.privilege_stack_table[2].ss,
            self.cr3,
            self.eip,
            self.eflags,
            self.eax,
            self.ecx,
            self.edx,
            self.ebx,
            self.esp,
            self.ebp,
            self.esi,
            self.edi,
            self.es,
            self.cs,
            self.ss,
            self.ds,
            self.fs,
            self.gs,
            self.ldt,
            (self.trap as u32) | ((self.iomap_base as u32) << 16),
        ]
    }

    /// Creates a new TSS with zeroed privilege stack table, zeroed save slots
    /// and a zero `iomap_base`.
    #[inline]
    pub fn new() -> (tss: TaskStateSegment)
        ensures
            tss.image() == Seq::new(26, |i: int| 0u32),
            forall|i: int| 0 <= i < 3 ==> tss.privilege_stack_table[i].esp == 0
                && tss.privilege_stack_table[i].ss == 0,
            tss.iomap_base == 0,
            tss.trap == 0,
    {
        let tss = TaskStateSegment {
            privilege_stack_table: [Stack::zero(); 3],
            iomap_base: 0,
            prev_tss: 0,
            cr3: 0,
            eip: 0,
            eflags: 0,
            eax: 0,
            ecx: 0,
            edx: 0,
            ebx: 0,
            esp: 0,
            ebp: 0,
            esi: 0,
            edi: 0,
            es: 0,
            cs: 0,
            ss: 0,
            ds: 0,
            fs: 0,
            gs: 0,
            ldt: 0,
            trap: 0,
        };
        assert((0u16 as u32) | ((0u16 as u32) << 16) == 0u32) by (bit_vector);
        assert(tss.image() =~= Seq::new(26, |i: int| 0u32));
        tss
    }

    /// The words of the segment in the order in which the processor reads
    /// them.
    pub fn words(&self) -> (w: [u32; 26])
        ensures
            w@ == self.image(),
    {
        let s0: Stack = self.privilege_stack_table[0];
        let s1: Stack = self.privilege_stack_table[1];
        let s2: Stack = self.privilege_stack_table[2];
        let last: u32 = (self.trap as u32) | ((self.iomap_base as u32) << 16);
        let w: [u32; 26] = [
            self.prev_tss,
            s0.esp,
            s0.ss,
            s1.esp,
            s1.ss,
            s2.esp,
            s2.ss,
            self.cr3,
            self.eip,
            self.eflags,
            self.eax,
            self.ecx,
            self.edx,
            self.ebx,
            self.esp,
            self.ebp,
            self.esi,
            self.edi,
            self.es,
            self.cs,
            self.ss,
            self.ds,
            self.fs,
            self.gs,
            self.ldt,
            last,
        ];
        assert(w@ =~= self.image());
        w
    }
}

} // verus!
